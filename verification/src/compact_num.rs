//! A numeric optional without a separate presence flag.
//!
//! [`SentinelOptional`] holds one value of a numeric element type and reserves
//! one bit pattern of that type, chosen at construction, as the sentinel
//! meaning "no value". The raw value equals the sentinel if and only if the
//! optional is logically empty, so the sentinel itself can never be stored as
//! a present value.

use vstd::prelude::*;

use crate::element::Element;
use crate::error::IllegalValue;

verus! {

/// An optional numeric value that reserves one bit pattern as "absent".
#[derive(Copy, PartialEq, Eq, Hash)]
pub struct SentinelOptional<N: Element> {
    inner: N,
    except: N,
}

impl<N: Element> Clone for SentinelOptional<N> {
    /// A copy of the optional, equal to the original.
    fn clone(&self) -> (r: Self)
        ensures
            r == *self,
    {
        SentinelOptional { inner: self.inner, except: self.except }
    }
}

impl<N: Element> SentinelOptional<N> {
    /// The raw value currently held, sentinel included.
    pub closed spec fn raw(self) -> N {
        self.inner
    }

    /// The reserved sentinel bit pattern of this optional.
    pub closed spec fn except(self) -> N {
        self.except
    }

    /// Whether the optional is logically empty.
    pub open spec fn is_empty(self) -> bool {
        self.raw().as_int() == self.except().as_int()
    }

    /// The value held, if any.
    pub open spec fn stored(self) -> Option<N> {
        if self.is_empty() {
            None
        } else {
            Some(self.raw())
        }
    }

    /// An empty optional that reserves `except` as its sentinel.
    pub fn new(except: N) -> (r: Self)
        ensures
            r.except() == except,
            r.is_empty(),
    {
        SentinelOptional { inner: except, except }
    }

    /// An optional that reserves `except` and starts out holding `inner` raw;
    /// passing the sentinel itself makes an empty optional.
    pub fn new_with(except: N, inner: N) -> (r: Self)
        ensures
            r.except() == except,
            r.raw() == inner,
    {
        SentinelOptional { inner, except }
    }

    /// A reference to the stored value, or `None` while empty.
    pub fn get(&self) -> (r: Option<&N>)
        ensures
            match r {
                None => self.stored() is None,
                Some(p) => self.stored() == Some(*p),
            },
    {
        if self.inner.el_eq(self.except) {
            None
        } else {
            Some(&self.inner)
        }
    }

    /// A mutable reference to the stored value, or `None` while empty.
    ///
    /// Writing the sentinel through the reference empties the optional, just
    /// as storing the sentinel raw does.
    pub fn get_mut(&mut self) -> (r: Option<&mut N>)
        ensures
            old(self).is_empty() ==> r is None && *final(self) == *old(self),
            !old(self).is_empty() ==> ({
                &&& r is Some
                &&& *r.unwrap() == old(self).raw()
                &&& final(self).raw() == *final(r.unwrap())
                &&& final(self).except() == old(self).except()
            }),
    {
        if self.inner.el_eq(self.except) {
            None
        } else {
            Some(&mut self.inner)
        }
    }

    /// Stores `val` unconditionally, overwriting any previous value; rejects
    /// the sentinel with [`IllegalValue`] and then changes nothing.
    pub fn set(&mut self, val: N) -> (r: Result<(), IllegalValue>)
        ensures
            r is Err <==> val.as_int() == old(self).except().as_int(),
            r is Err ==> *final(self) == *old(self),
            r is Ok ==> final(self).raw() == val && final(self).except() == old(self).except(),
            r is Ok ==> final(self).stored() == Some(val),
    {
        if val.el_eq(self.except) {
            Err(IllegalValue)
        } else {
            self.inner = val;
            Ok(())
        }
    }

    /// Resets the optional to empty; idempotent.
    pub fn init(&mut self)
        ensures
            final(self).is_empty(),
            final(self).stored() is None,
            final(self).except() == old(self).except(),
    {
        self.inner = self.except;
    }
}

impl<N: Element + PartialEq> PartialOrd for SentinelOptional<N> {
    /// Orders two optionals by their stored values; an empty optional is
    /// unordered against anything.
    fn partial_cmp(&self, other: &Self) -> (r: Option<core::cmp::Ordering>) {
        if self.inner.el_eq(self.except) || other.inner.el_eq(other.except) {
            None
        } else if self.inner.el_eq(other.inner) {
            Some(core::cmp::Ordering::Equal)
        } else if self.inner.el_lt(other.inner) {
            Some(core::cmp::Ordering::Less)
        } else {
            Some(core::cmp::Ordering::Greater)
        }
    }
}

impl<N: Element + PartialEq> vstd::std_specs::cmp::PartialOrdSpecImpl for SentinelOptional<N> {
    open spec fn obeys_partial_cmp_spec() -> bool {
        true
    }

    open spec fn partial_cmp_spec(&self, other: &Self) -> Option<core::cmp::Ordering> {
        if self.is_empty() || other.is_empty() {
            None
        } else if self.raw().as_int() == other.raw().as_int() {
            Some(core::cmp::Ordering::Equal)
        } else if self.raw().as_int() < other.raw().as_int() {
            Some(core::cmp::Ordering::Less)
        } else {
            Some(core::cmp::Ordering::Greater)
        }
    }
}

/// Law: storing a legal value always succeeds and is read back exactly.
/// `after` is any state that a successful `set(v)` on a state with `before`'s
/// sentinel leaves behind, as `set`'s contract describes it.
pub proof fn lemma_set_then_get<N: Element>(
    before: SentinelOptional<N>,
    after: SentinelOptional<N>,
    v: N,
)
    requires
        v.as_int() != before.except().as_int(),
        after.raw() == v,
        after.except() == before.except(),
    ensures
        after.stored() == Some(v),
{
}

/// Law: a reset optional reads back as absent, whatever was stored before.
pub proof fn lemma_init_then_get<N: Element>(s: SentinelOptional<N>)
    requires
        s.is_empty(),
    ensures
        s.stored() is None,
{
}

} // verus!
