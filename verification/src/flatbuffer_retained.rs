//! Validation and storage of buffers without a size prefix: verify once at
//! construction, then read unchecked for the object's whole life.

use crate::schema::Schema;
use core::marker::PhantomData;
use vstd::prelude::*;
use vstd::std_specs::iter::IteratorSpec;

verus! {

/// Owns the bytes backing an unprefixed message of type `T`.
///
/// A value of this type cannot exist unless its bytes passed `T`'s full
/// structural verification with the root at offset 0: the only constructor
/// runs the verifier, the bytes are never mutated afterwards, and the
/// invariant is carried by the type itself, so `get` needs no precondition
/// and no re-check.
#[derive(Debug)]
pub struct FlatbufferRetained<'a, T: Schema<'a>> {
    /// The verified bytes.
    data: Vec<u8>,
    /// Compile-time marker of which schema type the bytes were verified for.
    phantom: PhantomData<&'a T>,
}

impl<'a, T: Schema<'a>> View for FlatbufferRetained<'a, T> {
    type V = Seq<u8>;

    closed spec fn view(&self) -> Seq<u8> {
        self.data@
    }
}

impl<'a, T: Schema<'a>> FlatbufferRetained<'a, T> {
    /// Established at construction and never invalidated: the retained
    /// bytes passed unprefixed verification for `T`.
    #[verifier::type_invariant]
    spec fn wf(self) -> bool {
        T::valid(self.data@)
    }

    /// Verifies `data` as an unprefixed message of type `T` and retains it.
    ///
    /// Returns `Ok` exactly when the bytes pass `T`'s structural
    /// verification; the retained bytes are the input, unchanged. On
    /// failure no object is produced and the verifier's error is returned.
    pub fn new(data: Vec<u8>) -> (r: Result<Self, T::Error>)
        ensures
            r is Ok <==> T::valid(data@),
            r matches Ok(b) ==> b@ == data@,
    {
        match T::run_verifier(data.as_slice()) {
            Ok(()) => Ok(FlatbufferRetained { data, phantom: PhantomData }),
            Err(e) => Err(e),
        }
    }

    /// Returns the root view of the retained bytes, locating it at offset 0
    /// without re-running verification. Infallible: every reachable `self`
    /// passed verification at construction.
    pub fn get(&'a self) -> (r: T::Root)
        ensures
            r == T::root_of(self@),
    {
        proof {
            use_type_invariant(self);
        }
        T::follow_root(self.data.as_slice())
    }

    /// Consumes the object and gives back the raw bytes it retained:
    /// exactly the bytes that were verified at construction.
    pub fn take(self) -> (r: Vec<u8>)
        ensures
            r@ == self@,
    {
        self.data
    }

    /// Borrows the retained bytes read-only, without touching the verified
    /// invariant.
    pub fn as_vec(&self) -> (r: &Vec<u8>)
        ensures
            r@ == self@,
    {
        &self.data
    }

    /// Iterates over the retained bytes read-only, in order.
    pub fn iter(&self) -> (r: std::slice::Iter<'_, u8>)
        ensures
            r.remaining() == self@.as_ref(),
    {
        proof {
            broadcast use vstd::std_specs::slice::group_slice_axioms;

        }
        self.data.as_slice().iter()
    }
}

impl<'a, T: Schema<'a>> Clone for FlatbufferRetained<'a, T> {
    /// Copies the retained bytes; the copy is backed by the same verified
    /// byte sequence as the original.
    fn clone(&self) -> (r: Self)
        ensures
            r@ == self@,
    {
        proof {
            use_type_invariant(self);
        }
        let data = self.data.clone();
        proof {
            assert(data@ =~= self.data@);
        }
        FlatbufferRetained { data, phantom: PhantomData }
    }
}

/// Round trip: a buffer constructed from `input` retains, as `new` ensures,
/// bytes whose view equals `input@`; `take` hands back, as its contract
/// says, bytes whose view equals the buffer's; so what comes out is exactly
/// what went in.
pub proof fn lemma_round_trip<'a, T: Schema<'a>>(
    input: Vec<u8>,
    retained: FlatbufferRetained<'a, T>,
    output: Vec<u8>,
)
    requires
        retained@ == input@,
        output@ == retained@,
    ensures
        output@ == input@,
{
}

/// Idempotence of reads: `get` pins its result to `T::root_of` of the
/// retained bytes, which never change, so any two root views taken from the
/// same object — in sequence or by concurrent read-only callers — are
/// equal.
pub proof fn lemma_get_idempotent<'a, T: Schema<'a>>(
    retained: FlatbufferRetained<'a, T>,
    r1: T::Root,
    r2: T::Root,
)
    requires
        r1 == T::root_of(retained@),
        r2 == T::root_of(retained@),
    ensures
        r1 == r2,
{
}

} // verus!
