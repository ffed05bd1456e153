//! A "best value so far" tracker that owns a payload alongside the value.
//!
//! [`PayloadExtremumTracker`] extends the numeric tracker with one
//! caller-supplied payload owned 1:1 with the tracked value: the payload slot
//! is occupied exactly while the numeric state differs from the sentinel.
//! That lockstep is the type's well-formedness invariant; every constructor
//! establishes it and every operation preserves it. Replacing the tracked
//! value drops the old payload before the new one is installed, and
//! [`PayloadExtremumTracker::take`] moves the payload out so that the caller
//! alone disposes of it.

use core::marker::PhantomData;

use vstd::prelude::*;
use vstd::std_specs::cmp::PartialOrdSpec;

use crate::element::Element;
use crate::error::IllegalValue;
use crate::policy::Policy;
use crate::updatable_num::UpdateResult;
use crate::updatable_num::apply_candidate;

verus! {

/// A "best value so far" tracker carrying one owned payload while non-empty.
pub struct PayloadExtremumTracker<N: Element, P: Policy<N>, T> {
    inner: N,
    data: Option<T>,
    policy: PhantomData<P>,
}

impl<N: Element, P: Policy<N>, T> PayloadExtremumTracker<N, P, T> {
    /// The raw value currently held, sentinel included.
    pub closed spec fn raw(self) -> N {
        self.inner
    }

    /// The payload currently owned, if any.
    pub closed spec fn payload(self) -> Option<T> {
        self.data
    }

    /// Whether the tracker is logically empty.
    pub open spec fn is_empty(self) -> bool {
        self.raw().as_int() == P::sentinel_int()
    }

    /// The best value observed so far, if any candidate has been accepted.
    pub open spec fn held(self) -> Option<N> {
        if self.is_empty() {
            None
        } else {
            Some(self.raw())
        }
    }

    /// The payload slot is occupied exactly while the tracker is non-empty.
    pub open spec fn well_formed(self) -> bool {
        self.payload() is Some <==> !self.is_empty()
    }

    /// An empty tracker owning no payload.
    pub fn new() -> (r: Self)
        ensures
            r.is_empty(),
            r.payload() is None,
            r.well_formed(),
    {
        PayloadExtremumTracker { inner: P::sentinel(), data: None, policy: PhantomData }
    }

    /// A tracker that starts out holding `inner` together with its payload.
    /// The sentinel cannot be a present value, so it cannot be the starting
    /// value either.
    pub fn new_with(inner: N, data: T) -> (r: Self)
        requires
            inner.as_int() != P::sentinel_int(),
        ensures
            r.raw() == inner,
            r.payload() == Some(data),
            r.well_formed(),
    {
        PayloadExtremumTracker { inner, data: Some(data), policy: PhantomData }
    }

    /// Offers a candidate with its payload. The sentinel is rejected with
    /// [`IllegalValue`]; a tie yields `Equal` with mutable access to both the
    /// retained value and the retained payload, so the caller may merge
    /// without destroying either; an accepted candidate drops the old
    /// payload, installs the new pair and yields `Updated`; otherwise
    /// nothing changes and the offered payload is dropped with the
    /// `NotUpdated` verdict.
    pub fn update(&mut self, new: N, data: T) -> (r: Result<
        UpdateResult<(&mut N, &mut T)>,
        IllegalValue,
    >)
        requires
            old(self).well_formed(),
        ensures
            r is Err <==> new.as_int() == P::sentinel_int(),
            r is Err ==> *final(self) == *old(self),
            r matches Ok(u) ==> ({
                &&& (u is Equal <==> new.as_int() == old(self).raw().as_int())
                &&& (u is Updated <==> new.as_int() != old(self).raw().as_int()
                    && P::prefers(new.as_int(), old(self).raw().as_int()))
                &&& (u is NotUpdated <==> new.as_int() != old(self).raw().as_int()
                    && !P::prefers(new.as_int(), old(self).raw().as_int()))
                &&& (u is Updated ==> final(self).raw() == new && final(self).payload() == Some(
                    data,
                ) && final(self).well_formed())
                &&& (u is NotUpdated ==> *final(self) == *old(self))
                &&& (u matches UpdateResult::Equal(m) ==> ({
                    &&& *m.0 == old(self).raw()
                    &&& old(self).payload() == Some(*m.1)
                    &&& final(self).raw() == *final(m.0)
                    &&& final(self).payload() == Some(*final(m.1))
                }))
                &&& (!(u is Equal) ==> final(self).raw().as_int() == apply_candidate::<N, P>(
                    old(self).raw().as_int(),
                    new.as_int(),
                ))
            }),
    {
        if new.el_eq(P::sentinel()) {
            Err(IllegalValue)
        } else if new.el_eq(self.inner) {
            match &mut self.data {
                Some(d) => Ok(UpdateResult::Equal((&mut self.inner, d))),
                None => unreached(),
            }
        } else if P::prefers_exec(new, self.inner) {
            self.data = Some(data);
            self.inner = new;
            Ok(UpdateResult::Updated)
        } else {
            Ok(UpdateResult::NotUpdated)
        }
    }

    /// Whether any value is held.
    pub fn has_value(&self) -> (r: bool)
        ensures
            r <==> !self.is_empty(),
    {
        !self.inner.el_eq(P::sentinel())
    }

    /// References to the held value and its payload, or `None` while empty.
    pub fn get(&self) -> (r: Option<(&N, &T)>)
        requires
            self.well_formed(),
        ensures
            match r {
                None => self.held() is None,
                Some(p) => self.held() == Some(*p.0) && self.payload() == Some(*p.1),
            },
    {
        if self.inner.el_eq(P::sentinel()) {
            None
        } else {
            match &self.data {
                Some(d) => Some((&self.inner, d)),
                None => unreached(),
            }
        }
    }

    /// Mutable references to the held value and its payload, or `None` while
    /// empty.
    ///
    /// Writing the sentinel through the value reference breaks the lockstep
    /// between numeric state and payload slot, so well-formedness after the
    /// call holds only if the value written back is not the sentinel.
    pub fn get_mut(&mut self) -> (r: Option<(&mut N, &mut T)>)
        requires
            old(self).well_formed(),
        ensures
            old(self).is_empty() ==> r is None && *final(self) == *old(self),
            !old(self).is_empty() ==> ({
                &&& r is Some
                &&& *r.unwrap().0 == old(self).raw()
                &&& old(self).payload() == Some(*r.unwrap().1)
                &&& final(self).raw() == *final(r.unwrap().0)
                &&& final(self).payload() == Some(*final(r.unwrap().1))
            }),
    {
        if self.inner.el_eq(P::sentinel()) {
            None
        } else {
            match &mut self.data {
                Some(d) => Some((&mut self.inner, d)),
                None => unreached(),
            }
        }
    }

    /// Force-overwrites the tracked pair, bypassing the comparison policy;
    /// the old payload, if any, is dropped before `t` is installed. Rejects
    /// the sentinel with [`IllegalValue`] and then changes nothing. Meant
    /// for explicit re-initialization, not as a substitute for `update`.
    pub fn set(&mut self, val: N, t: T) -> (r: Result<(), IllegalValue>)
        ensures
            r is Err <==> val.as_int() == P::sentinel_int(),
            r is Err ==> *final(self) == *old(self),
            r is Ok ==> final(self).raw() == val && final(self).payload() == Some(t)
                && final(self).well_formed(),
    {
        if val.el_eq(P::sentinel()) {
            Err(IllegalValue)
        } else {
            self.data = Some(t);
            self.inner = val;
            Ok(())
        }
    }

    /// Resets the tracker to empty, dropping the payload if one is owned;
    /// idempotent.
    pub fn init(&mut self)
        ensures
            final(self).is_empty(),
            final(self).payload() is None,
            final(self).well_formed(),
    {
        self.data = None;
        self.inner = P::sentinel();
    }

    /// Consumes the tracker. A non-empty tracker hands the held value and
    /// the payload to the caller as one owned pair, so the payload is
    /// disposed of exactly once, by the caller; an empty tracker yields
    /// `None` and owned nothing to dispose of.
    pub fn take(self) -> (r: Option<(N, T)>)
        requires
            self.well_formed(),
        ensures
            self.is_empty() ==> r is None,
            !self.is_empty() ==> (r matches Some(p) && p.0 == self.raw() && self.payload()
                == Some(p.1)),
    {
        match self.data {
            Some(d) => Some((self.inner, d)),
            None => None,
        }
    }
}

impl<N: Element, P: Policy<N>, T> Default for PayloadExtremumTracker<N, P, T> {
    /// An empty tracker owning no payload, exactly as `new` makes one.
    fn default() -> (r: Self)
        ensures
            r.is_empty(),
            r.payload() is None,
            r.well_formed(),
    {
        Self::new()
    }
}

impl<N: Element, P: Policy<N>, T: Clone> Clone for PayloadExtremumTracker<N, P, T> {
    /// A copy of the tracker: an empty tracker clones to an empty tracker,
    /// a non-empty one to a tracker holding the same value and a fresh clone
    /// of the payload.
    fn clone(&self) -> (r: Self)
        ensures
            r.raw() == self.raw(),
            self.payload() is None ==> r.payload() is None,
            self.payload() matches Some(t) ==> (r.payload() matches Some(u) && cloned(t, u)),
            self.well_formed() ==> r.well_formed(),
    {
        match &self.data {
            Some(d) => PayloadExtremumTracker {
                inner: self.inner,
                data: Some(d.clone()),
                policy: PhantomData,
            },
            None => PayloadExtremumTracker { inner: self.inner, data: None, policy: PhantomData },
        }
    }
}

impl<N: Element, P: Policy<N>, T> PartialEq for PayloadExtremumTracker<N, P, T> {
    /// Two trackers are equal exactly when both are non-empty and hold the
    /// same value; payloads are not compared, and an empty tracker equals
    /// nothing, itself included.
    fn eq(&self, other: &Self) -> (r: bool) {
        if self.inner.el_eq(P::sentinel()) || other.inner.el_eq(P::sentinel()) {
            false
        } else {
            self.inner.el_eq(other.inner)
        }
    }
}

impl<N: Element, P: Policy<N>, T> vstd::std_specs::cmp::PartialEqSpecImpl for PayloadExtremumTracker<N, P, T> {
    open spec fn obeys_eq_spec() -> bool {
        true
    }

    open spec fn eq_spec(&self, other: &Self) -> bool {
        !self.is_empty() && !other.is_empty() && self.raw().as_int() == other.raw().as_int()
    }
}

impl<N: Element, P: Policy<N>, T> PartialOrd for PayloadExtremumTracker<N, P, T> {
    /// Orders two trackers by their held values; an empty tracker is
    /// unordered against anything.
    fn partial_cmp(&self, other: &Self) -> (r: Option<core::cmp::Ordering>) {
        if self.inner.el_eq(P::sentinel()) || other.inner.el_eq(P::sentinel()) {
            None
        } else if self.inner.el_eq(other.inner) {
            Some(core::cmp::Ordering::Equal)
        } else if self.inner.el_lt(other.inner) {
            Some(core::cmp::Ordering::Less)
        } else {
            Some(core::cmp::Ordering::Greater)
        }
    }
}

impl<N: Element, P: Policy<N>, T> vstd::std_specs::cmp::PartialOrdSpecImpl for PayloadExtremumTracker<N, P, T> {
    open spec fn obeys_partial_cmp_spec() -> bool {
        true
    }

    open spec fn partial_cmp_spec(&self, other: &Self) -> Option<core::cmp::Ordering> {
        if self.is_empty() || other.is_empty() {
            None
        } else if self.raw().as_int() == other.raw().as_int() {
            Some(core::cmp::Ordering::Equal)
        } else if self.raw().as_int() < other.raw().as_int() {
            Some(core::cmp::Ordering::Less)
        } else {
            Some(core::cmp::Ordering::Greater)
        }
    }
}

/// Law: two non-empty payload trackers of one policy order exactly as their
/// held values do, two that order as equal hold the very same value, and an
/// empty tracker is unordered against any tracker.
pub proof fn lemma_payload_tracker_ordering<N: Element, P: Policy<N>, T>(
    a: PayloadExtremumTracker<N, P, T>,
    b: PayloadExtremumTracker<N, P, T>,
)
    ensures
        a.partial_cmp_spec(&b) == Some(core::cmp::Ordering::Equal) ==> a.raw() == b.raw(),
        !a.is_empty() && !b.is_empty() ==> a.partial_cmp_spec(&b) == (if a.raw().as_int()
            == b.raw().as_int() {
            Some(core::cmp::Ordering::Equal)
        } else if a.raw().as_int() < b.raw().as_int() {
            Some(core::cmp::Ordering::Less)
        } else {
            Some(core::cmp::Ordering::Greater)
        }),
        a.is_empty() || b.is_empty() ==> a.partial_cmp_spec(&b) is None,
{
    if !a.is_empty() && !b.is_empty() && a.raw().as_int() == b.raw().as_int() {
        N::lemma_as_int_injective(a.raw(), b.raw());
    }
}

} // verus!
