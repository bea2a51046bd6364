//! Validation and storage of buffers that carry a 4-byte little-endian size
//! prefix before the root: verify once at construction, then read unchecked
//! for the object's whole life.

use crate::schema::Schema;
use core::marker::PhantomData;
use vstd::prelude::*;
use vstd::std_specs::iter::IteratorSpec;

verus! {

/// Owns the bytes backing a size-prefixed message of type `T`.
///
/// A value of this type cannot exist unless its bytes passed `T`'s full
/// structural verification in skip-size-prefix mode: a 4-byte little-endian
/// length, then the root, with a prefix inconsistent with the verified
/// extent rejected at construction. The framing is fixed for the object's
/// life: these bytes are never re-read as an unprefixed message.
#[derive(Debug)]
pub struct SizePrefixedFlatbufferRetained<'a, T: Schema<'a>> {
    /// The verified bytes, size prefix included.
    data: Vec<u8>,
    /// Compile-time marker of which schema type the bytes were verified for.
    phantom: PhantomData<&'a T>,
}

impl<'a, T: Schema<'a>> View for SizePrefixedFlatbufferRetained<'a, T> {
    type V = Seq<u8>;

    closed spec fn view(&self) -> Seq<u8> {
        self.data@
    }
}

impl<'a, T: Schema<'a>> SizePrefixedFlatbufferRetained<'a, T> {
    /// Established at construction and never invalidated: the retained
    /// bytes passed size-prefixed verification for `T`.
    #[verifier::type_invariant]
    spec fn wf(self) -> bool {
        T::valid_size_prefixed(self.data@)
    }

    /// Verifies `data` as a size-prefixed message of type `T` and retains
    /// it.
    ///
    /// Returns `Ok` exactly when the bytes pass `T`'s structural
    /// verification with the 4-byte prefix skipped first; the retained
    /// bytes are the input, unchanged. On failure no object is produced and
    /// the verifier's error is returned.
    pub fn new(data: Vec<u8>) -> (r: Result<Self, T::Error>)
        ensures
            r is Ok <==> T::valid_size_prefixed(data@),
            r matches Ok(b) ==> b@ == data@,
    {
        match T::run_verifier_size_prefixed(data.as_slice()) {
            Ok(()) => Ok(SizePrefixedFlatbufferRetained { data, phantom: PhantomData }),
            Err(e) => Err(e),
        }
    }

    /// Returns the root view of the retained bytes, skipping the 4-byte
    /// prefix before locating the root, without re-running verification.
    /// Infallible: every reachable `self` passed verification at
    /// construction.
    pub fn get(&'a self) -> (r: T::Root)
        ensures
            r == T::size_prefixed_root_of(self@),
    {
        proof {
            use_type_invariant(self);
        }
        T::follow_root_size_prefixed(self.data.as_slice())
    }

    /// Consumes the object and gives back the raw bytes it retained, size
    /// prefix included: exactly the bytes that were verified at
    /// construction.
    pub fn take(self) -> (r: Vec<u8>)
        ensures
            r@ == self@,
    {
        self.data
    }

    /// Borrows the retained bytes read-only, without touching the verified
    /// invariant.
    pub fn as_vec(&self) -> (r: &Vec<u8>)
        ensures
            r@ == self@,
    {
        &self.data
    }

    /// Iterates over the retained bytes read-only, in order.
    pub fn iter(&self) -> (r: std::slice::Iter<'_, u8>)
        ensures
            r.remaining() == self@.as_ref(),
    {
        proof {
            broadcast use vstd::std_specs::slice::group_slice_axioms;

        }
        self.data.as_slice().iter()
    }
}

impl<'a, T: Schema<'a>> Clone for SizePrefixedFlatbufferRetained<'a, T> {
    /// Copies the retained bytes; the copy is backed by the same verified
    /// byte sequence as the original.
    fn clone(&self) -> (r: Self)
        ensures
            r@ == self@,
    {
        proof {
            use_type_invariant(self);
        }
        let data = self.data.clone();
        proof {
            assert(data@ =~= self.data@);
        }
        SizePrefixedFlatbufferRetained { data, phantom: PhantomData }
    }
}

/// Round trip under the size-prefixed framing: the bytes `take` hands back
/// are, by the contracts of `new` and `take`, exactly the bytes that were
/// verified at construction.
pub proof fn lemma_round_trip_size_prefixed<'a, T: Schema<'a>>(
    input: Vec<u8>,
    retained: SizePrefixedFlatbufferRetained<'a, T>,
    output: Vec<u8>,
)
    requires
        retained@ == input@,
        output@ == retained@,
    ensures
        output@ == input@,
{
}

/// Idempotence of reads under the size-prefixed framing: `get` pins its
/// result to `T::size_prefixed_root_of` of the retained bytes, which never
/// change, so any two root views taken from the same object are equal.
pub proof fn lemma_get_idempotent_size_prefixed<'a, T: Schema<'a>>(
    retained: SizePrefixedFlatbufferRetained<'a, T>,
    r1: T::Root,
    r2: T::Root,
)
    requires
        r1 == T::size_prefixed_root_of(retained@),
        r2 == T::size_prefixed_root_of(retained@),
    ensures
        r1 == r2,
{
}

} // verus!
