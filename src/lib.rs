//! Interchangeable generators of unique identifiers.
//!
//! Every generator implements [`Generator`], which hands out a fresh identifier on each call.
//! A generator may also implement any of the optional capabilities: a reserved value that is
//! never handed out ([`GeneratorWithInvalid`]), a format check on textual identifiers
//! ([`GeneratorFromStr`]), and construction from a known starting value ([`GeneratorFromSeed`]).
use vstd::prelude::*;

pub mod random;
pub mod sequence;
pub mod string;

verus! {

/// The base contract: `next_id` returns a new identifier on every call.
///
/// Nothing is implied about the order of the values handed out, only that they are distinct.
/// `issuable` describes every value that `next_id` may return.
pub trait Generator<T>: Default where T: PartialEq {
    /// Holds of every value that `next_id` may return.
    spec fn issuable(id: T) -> bool;

    /// Returns a new identifier.
    fn next_id(&self) -> (id: T)
        ensures
            Self::issuable(id),
    ;
}

/// A generator that reserves one value of `T` that it never hands out.
pub trait GeneratorWithInvalid<T>: Generator<T> where T: PartialEq {
    /// Holds of the reserved value alone.
    spec fn is_reserved(id: T) -> bool;

    /// The reserved value is not among the values that `next_id` may return.
    proof fn lemma_reserved_not_issuable(id: T)
        requires
            Self::is_reserved(id),
        ensures
            !Self::issuable(id),
    ;

    /// Returns the reserved value, which is never a valid identifier.
    fn invalid_id() -> (id: T)
        ensures
            Self::is_reserved(id),
    ;
}

/// A generator whose identifiers can be checked for format in their textual form.
pub trait GeneratorFromStr<T>: Generator<T> where T: PartialEq {
    /// The textual values that have the format of this generator's identifiers.
    spec fn valid_text(s: Seq<char>) -> bool;

    /// Is `s` well formed as an identifier of this generator? This is a check of the format
    /// alone, not of whether the value was ever handed out.
    fn is_valid_value(s: &str) -> (r: bool)
        ensures
            r == Self::valid_text(s@),
    ;
}

/// A generator that can be created from a known starting value, the seed.
pub trait GeneratorFromSeed<T>: Generator<T> where T: PartialEq {
    /// The seeds that this generator accepts.
    spec fn seed_allowed(seed: T) -> bool;

    /// Creates a generator from `seed`; a seed outside `seed_allowed` is a caller's error.
    fn new(seed: T) -> (g: Self)
        requires
            Self::seed_allowed(seed),
    ;
}

/// No generator hands out its reserved value: whatever `next_id` returns differs from what
/// `invalid_id` returns.
pub proof fn lemma_issued_never_invalid<T: PartialEq, G: GeneratorWithInvalid<T>>(id: T, reserved: T)
    requires
        G::issuable(id),
        G::is_reserved(reserved),
    ensures
        id != reserved,
{
    G::lemma_reserved_not_issuable(reserved);
}

} // verus!
