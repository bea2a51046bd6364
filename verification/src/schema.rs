//! The per-message-type capability that the retaining wrappers are generic
//! over: structural verification of a byte buffer and location of the typed
//! root view inside it.
//!
//! The wrappers in this crate never know a concrete message shape. Schema
//! code supplied by the user of the crate (in practice, code generated for a
//! flatbuffers table, driving `flatbuffers::Verifier`) implements this trait
//! once per message type and is trusted for exactly two things: that
//! `run_verifier` decides the abstract predicate `valid` (and its
//! size-prefixed counterpart), and that the `follow_root` functions return
//! the one root view that the verified bytes determine.

use vstd::prelude::*;

verus! {

/// A schema-type capability for message type `Self`, reading buffers that
/// live for `'a`.
///
/// `valid` and `valid_size_prefixed` are the implementor's acceptance
/// predicates: exactly the byte sequences its structural verifier passes,
/// with the root at offset 0, respectively after a 4-byte little-endian
/// size prefix. `root_of` and `size_prefixed_root_of` name the typed root
/// view that a valid buffer determines; they are functions of the bytes
/// alone, which is what makes unchecked re-reads sound.
pub trait Schema<'a>: Sized {
    /// The typed, read-only root view; borrows the underlying buffer.
    type Root;

    /// The value that describes a failed verification.
    type Error;

    /// Which byte sequences pass full structural verification for `Self`
    /// with the root at offset 0 and no size prefix.
    ///
    /// The default leaves the predicate unspecified, so that schema code
    /// written outside of verification need not mention it; a verified
    /// implementor overrides it.
    open spec fn valid(bytes: Seq<u8>) -> bool {
        arbitrary()
    }

    /// Which byte sequences pass full structural verification for `Self`
    /// with a 4-byte little-endian size prefix before the root.
    ///
    /// Unspecified by default, as with `valid`.
    open spec fn valid_size_prefixed(bytes: Seq<u8>) -> bool {
        arbitrary()
    }

    /// The root view determined by bytes that satisfy `valid`.
    ///
    /// Unspecified by default, as with `valid`.
    open spec fn root_of(bytes: Seq<u8>) -> Self::Root {
        arbitrary()
    }

    /// The root view determined by bytes that satisfy `valid_size_prefixed`.
    ///
    /// Unspecified by default, as with `valid`.
    open spec fn size_prefixed_root_of(bytes: Seq<u8>) -> Self::Root {
        arbitrary()
    }

    /// Runs the full structural verifier with the root at offset 0, under
    /// the implementor's default limits. Accepts exactly `valid`.
    fn run_verifier(data: &[u8]) -> (r: Result<(), Self::Error>)
        ensures
            r is Ok <==> Self::valid(data@),
    ;

    /// Runs the full structural verifier in skip-size-prefix mode. Accepts
    /// exactly `valid_size_prefixed`.
    fn run_verifier_size_prefixed(data: &[u8]) -> (r: Result<(), Self::Error>)
        ensures
            r is Ok <==> Self::valid_size_prefixed(data@),
    ;

    /// Locates the root at offset 0 without re-verifying. Callable only on
    /// bytes already known valid; returns the root view those bytes
    /// determine.
    fn follow_root(data: &'a [u8]) -> (r: Self::Root)
        requires
            Self::valid(data@),
        ensures
            r == Self::root_of(data@),
    ;

    /// Locates the root behind the 4-byte size prefix without re-verifying.
    /// Callable only on bytes already known valid under the size-prefixed
    /// framing; returns the root view those bytes determine.
    fn follow_root_size_prefixed(data: &'a [u8]) -> (r: Self::Root)
        requires
            Self::valid_size_prefixed(data@),
        ensures
            r == Self::size_prefixed_root_of(data@),
    ;
}

} // verus!
