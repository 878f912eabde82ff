//! Equality and order of wrappers, which are those of the scalars inside.

use crate::fast::Fast;
use std::cmp::Ordering;
use std::ops::Deref;
use vstd::prelude::*;
use vstd::std_specs::cmp::{PartialEqSpec, PartialEqSpecImpl, PartialOrdSpec, PartialOrdSpecImpl};

verus! {

/// Two wrappers are equal where `F` finds the scalars inside them equal.
impl<F: PartialEq> PartialEq for Fast<F> {
    #[inline(always)]
    fn eq(&self, other: &Self) -> (r: bool)
        ensures
            call_ensures(F::eq, (&self@, &other@), r),
    {
        self.deref().eq(other.deref())
    }
}

impl<F: PartialEq> PartialEqSpecImpl for Fast<F> {
    open spec fn obeys_eq_spec() -> bool {
        F::obeys_eq_spec()
    }

    open spec fn eq_spec(&self, other: &Self) -> bool {
        self@.eq_spec(&other@)
    }
}

/// Two wrappers compare as `F` compares the scalars inside them.
impl<F: PartialOrd> PartialOrd for Fast<F> {
    #[inline(always)]
    fn partial_cmp(&self, other: &Self) -> (r: Option<Ordering>)
        ensures
            call_ensures(F::partial_cmp, (&self@, &other@), r),
    {
        self.deref().partial_cmp(other.deref())
    }
}

impl<F: PartialOrd> PartialOrdSpecImpl for Fast<F> {
    open spec fn obeys_partial_cmp_spec() -> bool {
        F::obeys_partial_cmp_spec()
    }

    open spec fn partial_cmp_spec(&self, other: &Self) -> Option<Ordering> {
        self@.partial_cmp_spec(&other@)
    }
}

} // verus!
