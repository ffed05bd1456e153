//! A numeric "best value so far" tracker.
//!
//! [`ExtremumTracker`] holds one value of a numeric element type; the
//! [`Policy`] type parameter fixes which bit pattern is the sentinel meaning
//! "empty" and which comparison direction makes a candidate better than the
//! value held. Offering a candidate reports a three-way [`UpdateResult`]:
//! the candidate replaced the held value, tied it, or was rejected.

use core::marker::PhantomData;

use vstd::prelude::*;
use vstd::std_specs::cmp::PartialOrdSpec;

use crate::element::Element;
use crate::error::IllegalValue;
use crate::policy::Maximize;
use crate::policy::Minimize;
use crate::policy::Policy;

verus! {

/// The three-way outcome of offering a candidate to a tracker.
///
/// `Equal` carries mutable access to the retained state so that a caller may
/// merge a tying candidate without destroying and rebuilding the state.
pub enum UpdateResult<T> {
    /// The candidate was accepted and the state now reflects it.
    Updated,
    /// The candidate ties the held value; `T` gives access to the retained
    /// state.
    Equal(T),
    /// The candidate is worse than the held value; nothing changed.
    NotUpdated,
}

impl<T> UpdateResult<T> {
    /// Maps the payload of the `Equal` variant, leaving the other two
    /// variants as they are.
    pub fn map_equal<R, F: Fn(T) -> R>(self, f: F) -> (r: UpdateResult<R>)
        requires
            self matches UpdateResult::Equal(t) ==> call_requires(f, (t,)),
        ensures
            self is Updated ==> r is Updated,
            self is NotUpdated ==> r is NotUpdated,
            self matches UpdateResult::Equal(t) ==> (r matches UpdateResult::Equal(m)
                && call_ensures(f, (t,), m)),
    {
        match self {
            Self::Updated => UpdateResult::Updated,
            Self::NotUpdated => UpdateResult::NotUpdated,
            Self::Equal(t) => UpdateResult::Equal(f(t)),
        }
    }

    /// Whether the candidate was rejected.
    pub fn is_notupdate(&self) -> (r: bool)
        ensures
            r <==> self is NotUpdated,
    {
        if let Self::NotUpdated = self {
            true
        } else {
            false
        }
    }

    /// Whether the candidate was accepted.
    pub fn is_update(&self) -> (r: bool)
        ensures
            r <==> self is Updated,
    {
        if let Self::Updated = self {
            true
        } else {
            false
        }
    }
}

/// The value a tracker holds after one candidate has been offered to a
/// tracker holding `current`: the candidate replaces `current` exactly when
/// it is legal and the policy prefers it.
pub open spec fn apply_candidate<N: Element, P: Policy<N>>(current: int, candidate: int) -> int {
    if candidate == P::sentinel_int() {
        current
    } else if P::prefers(candidate, current) {
        candidate
    } else {
        current
    }
}

/// The value a tracker holds after a whole sequence of candidates has been
/// offered in order, starting from `current`.
pub open spec fn apply_candidates<N: Element, P: Policy<N>>(
    current: int,
    candidates: Seq<int>,
) -> int
    decreases candidates.len(),
{
    if candidates.len() == 0 {
        current
    } else {
        apply_candidate::<N, P>(
            apply_candidates::<N, P>(current, candidates.drop_last()),
            candidates.last(),
        )
    }
}

/// A numeric-only "best value so far" tracker; empty while the raw value
/// equals the sentinel that `P` reserves.
#[derive(Copy, PartialEq, Eq, Hash)]
pub struct ExtremumTracker<N: Element, P: Policy<N>> {
    inner: N,
    policy: PhantomData<P>,
}

impl<N: Element, P: Policy<N>> Clone for ExtremumTracker<N, P> {
    /// A copy of the tracker, equal to the original.
    fn clone(&self) -> (r: Self)
        ensures
            r == *self,
    {
        ExtremumTracker { inner: self.inner, policy: PhantomData }
    }
}

impl<N: Element, P: Policy<N>> ExtremumTracker<N, P> {
    /// The raw value currently held, sentinel included.
    pub closed spec fn raw(self) -> N {
        self.inner
    }

    /// Whether the tracker is logically empty.
    pub open spec fn is_empty(self) -> bool {
        self.raw().as_int() == P::sentinel_int()
    }

    /// The best value observed so far, if any candidate has been accepted.
    pub open spec fn held(self) -> Option<N> {
        if self.is_empty() {
            None
        } else {
            Some(self.raw())
        }
    }

    /// An empty tracker.
    pub fn new() -> (r: Self)
        ensures
            r.is_empty(),
    {
        ExtremumTracker { inner: P::sentinel(), policy: PhantomData }
    }

    /// A tracker that starts out holding `inner` raw; passing the sentinel
    /// itself makes an empty tracker.
    pub fn new_with(inner: N) -> (r: Self)
        ensures
            r.raw() == inner,
    {
        ExtremumTracker { inner, policy: PhantomData }
    }

    /// Offers a candidate. The sentinel is rejected with [`IllegalValue`];
    /// a candidate tying the held raw value yields `Equal` with mutable
    /// access to it; a candidate the policy prefers replaces the held value
    /// and yields `Updated`; any other candidate leaves the tracker
    /// unchanged and yields `NotUpdated`. An empty tracker accepts every
    /// legal candidate, because every legal value beats the sentinel.
    pub fn update(&mut self, new: N) -> (r: Result<UpdateResult<&mut N>, IllegalValue>)
        ensures
            r is Err <==> new.as_int() == P::sentinel_int(),
            r is Err ==> *final(self) == *old(self),
            r matches Ok(u) ==> ({
                &&& (u is Equal <==> new.as_int() == old(self).raw().as_int())
                &&& (u is Updated <==> new.as_int() != old(self).raw().as_int()
                    && P::prefers(new.as_int(), old(self).raw().as_int()))
                &&& (u is NotUpdated <==> new.as_int() != old(self).raw().as_int()
                    && !P::prefers(new.as_int(), old(self).raw().as_int()))
                &&& (u is Updated ==> final(self).raw() == new)
                &&& (u is NotUpdated ==> *final(self) == *old(self))
                &&& (u matches UpdateResult::Equal(m) ==> *m == old(self).raw()
                    && final(self).raw() == *final(m))
                &&& (!(u is Equal) ==> final(self).raw().as_int() == apply_candidate::<N, P>(
                    old(self).raw().as_int(),
                    new.as_int(),
                ))
            }),
    {
        if new.el_eq(P::sentinel()) {
            Err(IllegalValue)
        } else if new.el_eq(self.inner) {
            Ok(UpdateResult::Equal(&mut self.inner))
        } else if P::prefers_exec(new, self.inner) {
            self.inner = new;
            Ok(UpdateResult::Updated)
        } else {
            Ok(UpdateResult::NotUpdated)
        }
    }

    /// Whether any value is held.
    pub fn has_value(&self) -> (r: bool)
        ensures
            r <==> !self.is_empty(),
    {
        !self.inner.el_eq(P::sentinel())
    }

    /// A reference to the held value, or `None` while empty.
    pub fn get(&self) -> (r: Option<&N>)
        ensures
            match r {
                None => self.held() is None,
                Some(p) => self.held() == Some(*p),
            },
    {
        if self.inner.el_eq(P::sentinel()) {
            None
        } else {
            Some(&self.inner)
        }
    }

    /// A mutable reference to the held value, or `None` while empty.
    ///
    /// Writing the sentinel through the reference empties the tracker, just
    /// as it would through `get_mut` of the plain optional.
    pub fn get_mut(&mut self) -> (r: Option<&mut N>)
        ensures
            old(self).is_empty() ==> r is None && *final(self) == *old(self),
            !old(self).is_empty() ==> ({
                &&& r is Some
                &&& *r.unwrap() == old(self).raw()
                &&& final(self).raw() == *final(r.unwrap())
            }),
    {
        if self.inner.el_eq(P::sentinel()) {
            None
        } else {
            Some(&mut self.inner)
        }
    }

    /// Force-overwrites the held value, bypassing the comparison policy;
    /// rejects the sentinel with [`IllegalValue`] and then changes nothing.
    /// Meant for explicit re-initialization, not as a substitute for
    /// `update`.
    pub fn set(&mut self, val: N) -> (r: Result<(), IllegalValue>)
        ensures
            r is Err <==> val.as_int() == P::sentinel_int(),
            r is Err ==> *final(self) == *old(self),
            r is Ok ==> final(self).raw() == val,
            r is Ok ==> final(self).held() == Some(val),
    {
        if val.el_eq(P::sentinel()) {
            Err(IllegalValue)
        } else {
            self.inner = val;
            Ok(())
        }
    }

    /// Resets the tracker to empty; idempotent.
    pub fn init(&mut self)
        ensures
            final(self).is_empty(),
            final(self).held() is None,
    {
        self.inner = P::sentinel();
    }
}

impl<N: Element + PartialEq, P: Policy<N> + PartialEq> PartialOrd for ExtremumTracker<N, P> {
    /// Orders two trackers by their held values; an empty tracker is
    /// unordered against anything.
    fn partial_cmp(&self, other: &Self) -> (r: Option<core::cmp::Ordering>) {
        if self.inner.el_eq(P::sentinel()) || other.inner.el_eq(P::sentinel()) {
            None
        } else if self.inner.el_eq(other.inner) {
            Some(core::cmp::Ordering::Equal)
        } else if self.inner.el_lt(other.inner) {
            Some(core::cmp::Ordering::Less)
        } else {
            Some(core::cmp::Ordering::Greater)
        }
    }
}

impl<N: Element + PartialEq, P: Policy<N> + PartialEq> vstd::std_specs::cmp::PartialOrdSpecImpl for ExtremumTracker<N, P> {
    open spec fn obeys_partial_cmp_spec() -> bool {
        true
    }

    open spec fn partial_cmp_spec(&self, other: &Self) -> Option<core::cmp::Ordering> {
        if self.is_empty() || other.is_empty() {
            None
        } else if self.raw().as_int() == other.raw().as_int() {
            Some(core::cmp::Ordering::Equal)
        } else if self.raw().as_int() < other.raw().as_int() {
            Some(core::cmp::Ordering::Less)
        } else {
            Some(core::cmp::Ordering::Greater)
        }
    }
}

/// Law: a candidate that ties the current value is never preferred and never
/// changes it, whatever the policy.
pub proof fn lemma_tie_keeps_value<N: Element, P: Policy<N>>(current: int)
    ensures
        !P::prefers(current, current),
        apply_candidate::<N, P>(current, current) == current,
{
    P::lemma_prefers_strict(current);
}

/// Law: a single legal candidate offered to an empty tracker is always
/// accepted and becomes the held value, whatever the policy.
pub proof fn lemma_empty_tracker_accepts<N: Element, P: Policy<N>>(c: N)
    requires
        c.as_int() != P::sentinel_int(),
    ensures
        apply_candidate::<N, P>(P::sentinel_int(), c.as_int()) == c.as_int(),
{
    P::lemma_legal_beats_sentinel(c);
}

/// Law: two non-empty trackers of one policy order exactly as their held
/// values do, two that order as equal hold the very same value, and an empty
/// tracker is unordered against any tracker.
pub proof fn lemma_tracker_ordering<N: Element + PartialEq, P: Policy<N> + PartialEq>(
    a: ExtremumTracker<N, P>,
    b: ExtremumTracker<N, P>,
)
    ensures
        a.partial_cmp_spec(&b) == Some(core::cmp::Ordering::Equal) ==> a.raw() == b.raw(),
        !a.is_empty() && !b.is_empty() ==> a.partial_cmp_spec(&b) == (if a.raw().as_int()
            == b.raw().as_int() {
            Some(core::cmp::Ordering::Equal)
        } else if a.raw().as_int() < b.raw().as_int() {
            Some(core::cmp::Ordering::Less)
        } else {
            Some(core::cmp::Ordering::Greater)
        }),
        a.is_empty() || b.is_empty() ==> a.partial_cmp_spec(&b) is None,
{
    if !a.is_empty() && !b.is_empty() && a.raw().as_int() == b.raw().as_int() {
        N::lemma_as_int_injective(a.raw(), b.raw());
    }
}

/// The smallest value of a non-empty sequence.
pub open spec fn seq_min(s: Seq<int>) -> int
    recommends
        s.len() > 0,
    decreases s.len(),
{
    if s.len() <= 1 {
        s[0]
    } else if s.last() < seq_min(s.drop_last()) {
        s.last()
    } else {
        seq_min(s.drop_last())
    }
}

/// Law: a fresh Minimize tracker fed any sequence of legal candidates ends
/// up holding exactly the minimum of the sequence.
pub proof fn lemma_minimize_tracks_minimum<N: Element>(candidates: Seq<int>)
    requires
        candidates.len() > 0,
        forall|i: int| 0 <= i < candidates.len() ==> N::min_int() <= #[trigger] candidates[i]
            <= N::max_int() && candidates[i] != N::max_int(),
    ensures
        apply_candidates::<N, Minimize>(N::max_int(), candidates) == seq_min(candidates),
    decreases candidates.len(),
{
    let prefix = candidates.drop_last();
    let c = candidates.last();
    if candidates.len() == 1 {
        assert(apply_candidates::<N, Minimize>(N::max_int(), prefix) == N::max_int());
        assert(c == candidates[0]);
        assert(c < N::max_int());
        assert(seq_min(candidates) == c);
    } else {
        lemma_minimize_tracks_minimum::<N>(prefix);
        assert(apply_candidates::<N, Minimize>(N::max_int(), candidates) == apply_candidate::<
            N,
            Minimize,
        >(seq_min(prefix), c));
        assert(c < N::max_int());
    }
}

/// The largest value of a non-empty sequence.
pub open spec fn seq_max(s: Seq<int>) -> int
    recommends
        s.len() > 0,
    decreases s.len(),
{
    if s.len() <= 1 {
        s[0]
    } else if s.last() > seq_max(s.drop_last()) {
        s.last()
    } else {
        seq_max(s.drop_last())
    }
}

/// Law: a fresh Maximize tracker fed any sequence of legal candidates ends
/// up holding exactly the maximum of the sequence.
pub proof fn lemma_maximize_tracks_maximum<N: Element>(candidates: Seq<int>)
    requires
        candidates.len() > 0,
        forall|i: int| 0 <= i < candidates.len() ==> N::min_int() <= #[trigger] candidates[i]
            <= N::max_int() && candidates[i] != N::min_int(),
    ensures
        apply_candidates::<N, Maximize>(N::min_int(), candidates) == seq_max(candidates),
    decreases candidates.len(),
{
    let prefix = candidates.drop_last();
    let c = candidates.last();
    if candidates.len() == 1 {
        assert(apply_candidates::<N, Maximize>(N::min_int(), prefix) == N::min_int());
        assert(c == candidates[0]);
        assert(c > N::min_int());
        assert(seq_max(candidates) == c);
    } else {
        lemma_maximize_tracks_maximum::<N>(prefix);
        assert(apply_candidates::<N, Maximize>(N::min_int(), candidates) == apply_candidate::<
            N,
            Maximize,
        >(seq_max(prefix), c));
        assert(c > N::min_int());
    }
}

/// The minimum of a non-empty sequence is a lower bound of it.
pub proof fn lemma_seq_min_is_lower_bound(s: Seq<int>)
    requires
        s.len() > 0,
    ensures
        forall|j: int| 0 <= j < s.len() ==> seq_min(s) <= #[trigger] s[j],
    decreases s.len(),
{
    if s.len() > 1 {
        lemma_seq_min_is_lower_bound(s.drop_last());
        assert(forall|j: int| 0 <= j < s.len() - 1 ==> s.drop_last()[j] == #[trigger] s[j]);
    }
}

/// The minimum of a non-empty sequence occurs in it.
pub proof fn lemma_seq_min_is_attained(s: Seq<int>)
    requires
        s.len() > 0,
    ensures
        exists|j: int| 0 <= j < s.len() && #[trigger] s[j] == seq_min(s),
    decreases s.len(),
{
    if s.len() <= 1 {
        assert(s[0] == seq_min(s));
    } else {
        lemma_seq_min_is_attained(s.drop_last());
        if s.last() < seq_min(s.drop_last()) {
            assert(s[s.len() - 1] == seq_min(s));
        } else {
            let j = choose|j: int|
                0 <= j < s.drop_last().len() && #[trigger] s.drop_last()[j] == seq_min(
                    s.drop_last(),
                );
            assert(s[j] == seq_min(s));
        }
    }
}

/// Law: under Minimize, the candidate at position `i` changes the running
/// value exactly when it is strictly smaller than every candidate offered
/// before it.
pub proof fn lemma_minimize_accepts_strict_improvements<N: Element>(candidates: Seq<int>, i: int)
    requires
        0 <= i < candidates.len(),
        forall|k: int| 0 <= k < candidates.len() ==> N::min_int() <= #[trigger] candidates[k]
            <= N::max_int() && candidates[k] != N::max_int(),
    ensures
        apply_candidates::<N, Minimize>(N::max_int(), candidates.take(i + 1))
            != apply_candidates::<N, Minimize>(N::max_int(), candidates.take(i))
            <==> (forall|j: int| 0 <= j < i ==> candidates[i] < #[trigger] candidates[j]),
{
    let before = candidates.take(i);
    let c = candidates[i];
    assert(candidates.take(i + 1).drop_last() =~= before);
    assert(candidates.take(i + 1).last() == c);
    if i == 0 {
        assert(apply_candidates::<N, Minimize>(N::max_int(), before) == N::max_int());
        assert(c < N::max_int());
    } else {
        assert(forall|k: int| 0 <= k < before.len() ==> before[k] == #[trigger] candidates[k]);
        lemma_minimize_tracks_minimum::<N>(before);
        lemma_seq_min_is_lower_bound(before);
        lemma_seq_min_is_attained(before);
        if c < seq_min(before) {
        } else {
            let j = choose|j: int|
                0 <= j < before.len() && #[trigger] before[j] == seq_min(before);
            assert(!(candidates[i] < candidates[j]));
        }
    }
}

} // verus!
