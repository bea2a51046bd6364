//! Validate a self-describing binary message buffer once, at construction,
//! then use it unchecked later.
//!
//! Each wrapper owns its byte buffer and is generic over a
//! [`Schema`](schema::Schema) capability: the per-message-type structural
//! verifier and root locator. The only way to obtain a wrapper is the
//! fallible constructor that runs the verifier, the bytes never change
//! afterwards, and every later read (`get`, iteration, export of the raw
//! bytes) is a pure read of those same bytes with no re-check.

pub mod flatbuffer_retained;
pub mod schema;
pub mod size_prefixed;

pub use flatbuffer_retained::FlatbufferRetained;
pub use schema::Schema;
pub use size_prefixed::SizePrefixedFlatbufferRetained;

use vstd::prelude::*;

verus! {

/// Holds a verified buffer of either framing behind one static type.
///
/// Exactly one variant exists per object, fixed at construction, and every
/// operation dispatches to it: the verified-once guarantee of the held
/// wrapper is preserved while the framing distinction is erased at the use
/// site. No state is added and no verification is re-run.
pub enum Retained<'a, T: Schema<'a>> {
    /// A buffer verified with the root at offset 0.
    Unprefixed(FlatbufferRetained<'a, T>),
    /// A buffer verified behind a 4-byte little-endian size prefix.
    SizePrefixed(SizePrefixedFlatbufferRetained<'a, T>),
}

impl<'a, T: Schema<'a>> View for Retained<'a, T> {
    type V = Seq<u8>;

    open spec fn view(&self) -> Seq<u8> {
        match self {
            Retained::Unprefixed(b) => b@,
            Retained::SizePrefixed(b) => b@,
        }
    }
}

impl<'a, T: Schema<'a>> Retained<'a, T> {
    /// The root view that `get` returns: located at offset 0 or behind the
    /// size prefix, according to which framing was verified.
    pub open spec fn root_view(self) -> T::Root {
        match self {
            Retained::Unprefixed(b) => T::root_of(b@),
            Retained::SizePrefixed(b) => T::size_prefixed_root_of(b@),
        }
    }

    /// Verifies `data` as an unprefixed message of type `T` and, on
    /// success, retains it under the `Unprefixed` tag. Accepts exactly what
    /// `FlatbufferRetained::new` accepts; there is no fallback to the other
    /// framing.
    pub fn new_unprefixed(data: Vec<u8>) -> (r: Result<Self, T::Error>)
        ensures
            r is Ok <==> T::valid(data@),
            r matches Ok(u) ==> u matches Retained::Unprefixed(b) && b@ == data@,
    {
        Ok(Retained::Unprefixed(FlatbufferRetained::<T>::new(data)?))
    }

    /// Verifies `data` as a size-prefixed message of type `T` and, on
    /// success, retains it under the `SizePrefixed` tag. Accepts exactly
    /// what `SizePrefixedFlatbufferRetained::new` accepts; there is no
    /// fallback to the other framing.
    pub fn new_size_prefixed(data: Vec<u8>) -> (r: Result<Self, T::Error>)
        ensures
            r is Ok <==> T::valid_size_prefixed(data@),
            r matches Ok(u) ==> u matches Retained::SizePrefixed(b) && b@ == data@,
    {
        Ok(Retained::SizePrefixed(SizePrefixedFlatbufferRetained::<T>::new(data)?))
    }

    /// Returns the root view of the retained bytes, locating it as the held
    /// variant's framing prescribes, without re-running verification.
    pub fn get(&'a self) -> (r: T::Root)
        ensures
            r == self.root_view(),
    {
        match self {
            Retained::Unprefixed(a) => a.get(),
            Retained::SizePrefixed(a) => a.get(),
        }
    }

    /// Consumes the object and gives back the raw bytes the held variant
    /// retained: for either tag, exactly the bytes verified at
    /// construction.
    pub fn take(self) -> (r: Vec<u8>)
        ensures
            r@ == self@,
    {
        match self {
            Retained::Unprefixed(a) => a.take(),
            Retained::SizePrefixed(a) => a.take(),
        }
    }

    /// Borrows the retained bytes read-only; for either tag, the same bytes
    /// that `take` would hand back.
    pub fn as_vec(&self) -> (r: &Vec<u8>)
        ensures
            r@ == self@,
    {
        match self {
            Retained::Unprefixed(a) => a.as_vec(),
            Retained::SizePrefixed(a) => a.as_vec(),
        }
    }
}

/// The facade adds nothing to the held variant: whichever tag a `Retained`
/// carries, its exported bytes — what `take` and `as_vec` speak of through
/// the view — are exactly the held wrapper's bytes.
pub proof fn lemma_facade_exports_held_bytes<'a, T: Schema<'a>>(r: Retained<'a, T>)
    ensures
        r matches Retained::Unprefixed(b) ==> r@ == b@,
        r matches Retained::SizePrefixed(b) ==> r@ == b@,
{
}

} // verus!
