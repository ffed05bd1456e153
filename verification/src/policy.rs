//! The two update policies of the extremum trackers.
//!
//! A policy fixes two things about a tracker over an element type `N`: which
//! value of `N` is reserved as the sentinel meaning "empty", and which strict
//! comparison direction makes a candidate better than the incumbent.
//! Retaining the minimum reserves `N`'s largest value and accepts strictly
//! smaller candidates; retaining the maximum reserves `N`'s smallest value and
//! accepts strictly larger candidates.

use vstd::prelude::*;

use crate::element::Element;

verus! {

/// Fixes the sentinel value and the acceptance direction of a tracker.
pub trait Policy<N: Element>: Sized {
    /// The mathematical value of the reserved sentinel.
    spec fn sentinel_int() -> int;

    /// Whether a candidate value is strictly better than an incumbent value.
    spec fn prefers(candidate: int, incumbent: int) -> bool;

    /// A candidate never strictly improves on itself.
    proof fn lemma_prefers_strict(v: int)
        ensures
            !Self::prefers(v, v),
    ;

    /// Any representable value other than the sentinel is strictly better
    /// than the sentinel, so an empty tracker accepts every legal candidate.
    proof fn lemma_legal_beats_sentinel(v: N)
        ensures
            v.as_int() != Self::sentinel_int() ==> Self::prefers(v.as_int(), Self::sentinel_int()),
    ;

    /// The reserved sentinel value.
    fn sentinel() -> (r: N)
        ensures
            r.as_int() == Self::sentinel_int(),
    ;

    /// Decides `Self::prefers` on two elements.
    fn prefers_exec(candidate: N, incumbent: N) -> (r: bool)
        ensures
            r <==> Self::prefers(candidate.as_int(), incumbent.as_int()),
    ;
}

/// Retain the smallest value offered so far; the sentinel is `N`'s largest
/// value.
#[derive(Clone, Copy, PartialEq, Eq, Hash, Debug)]
pub struct Minimize;

/// Retain the largest value offered so far; the sentinel is `N`'s smallest
/// value.
#[derive(Clone, Copy, PartialEq, Eq, Hash, Debug)]
pub struct Maximize;

impl<N: Element> Policy<N> for Minimize {
    open spec fn sentinel_int() -> int {
        N::max_int()
    }

    open spec fn prefers(candidate: int, incumbent: int) -> bool {
        candidate < incumbent
    }

    proof fn lemma_prefers_strict(v: int) {
    }

    proof fn lemma_legal_beats_sentinel(v: N) {
        v.lemma_in_bounds();
    }

    fn sentinel() -> N {
        N::max_value()
    }

    fn prefers_exec(candidate: N, incumbent: N) -> bool {
        candidate.el_lt(incumbent)
    }
}

impl<N: Element> Policy<N> for Maximize {
    open spec fn sentinel_int() -> int {
        N::min_int()
    }

    open spec fn prefers(candidate: int, incumbent: int) -> bool {
        candidate > incumbent
    }

    proof fn lemma_prefers_strict(v: int) {
    }

    proof fn lemma_legal_beats_sentinel(v: N) {
        v.lemma_in_bounds();
    }

    fn sentinel() -> N {
        N::min_value()
    }

    fn prefers_exec(candidate: N, incumbent: N) -> bool {
        incumbent.el_lt(candidate)
    }
}

} // verus!
