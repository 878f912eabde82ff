//! The wrapper type: construction, conversion and transparent access.

use std::ops::{Deref, DerefMut};
use vstd::prelude::*;
use vstd::std_specs::convert::FromSpecImpl;

verus! {

/// A scalar that its owner has marked as eligible for relaxed arithmetic.
///
/// The wrapper enforces no invariant: it can hold any value of `F`, and it
/// is exactly as large as the scalar inside it.
pub struct Fast<F>(pub(crate) F);

impl<F> Fast<F> {
    /// The scalar inside the wrapper.
    pub closed spec fn view(self) -> F {
        self.0
    }

    /// The wrapper around `value`.
    pub closed spec fn wrap(value: F) -> Self {
        Fast(value)
    }

    /// Wraps `value` without looking at it.
    ///
    /// This is the explicit opt-in: from here on the value takes part in
    /// relaxed arithmetic, and it is on the caller that every later
    /// combination is valid under it.
    #[inline(always)]
    pub fn new(value: F) -> (r: Self)
        ensures
            r == Self::wrap(value),
            r@ == value,
    {
        Fast(value)
    }

    /// Takes the scalar out of the wrapper.
    #[inline(always)]
    pub(crate) fn into_inner(self) -> (r: F)
        ensures
            r == self@,
            self == Self::wrap(r),
    {
        self.0
    }

    /// Looking into a fresh wrapper gives back what was wrapped.
    pub proof fn lemma_wrap_view(value: F)
        ensures
            Self::wrap(value)@ == value,
    {
    }

    /// A wrapper is determined by the scalar inside it.
    pub proof fn lemma_view_wrap(self)
        ensures
            Self::wrap(self@) == self,
    {
    }
}

/// A clone holds what cloning the scalar gives.
impl<F: Clone> Clone for Fast<F> {
    #[inline(always)]
    fn clone(&self) -> (r: Self)
        ensures
            cloned::<F>(self@, r@),
    {
        Fast(self.0.clone())
    }
}

/// A wrapper is copied wherever the scalar inside it is.
impl<F: Copy> Copy for Fast<F> {}

/// The silent way in: the same wrapper as [`Fast::new`] gives, without the
/// name that marks the opt-in at the call site.
impl<F> From<F> for Fast<F> {
    #[inline(always)]
    fn from(f: F) -> (r: Self)
        ensures
            r@ == f,
    {
        Fast(f)
    }
}

impl<F> FromSpecImpl<F> for Fast<F> {
    open spec fn obeys_from_spec() -> bool {
        true
    }

    open spec fn from_spec(v: F) -> Self {
        Self::wrap(v)
    }
}

/// Read access to the scalar, and through it to every method of `F`.
impl<F> Deref for Fast<F> {
    type Target = F;

    #[inline(always)]
    fn deref(&self) -> (r: &F)
        ensures
            *r == self@,
    {
        &self.0
    }
}

/// Write access to the scalar: what the caller leaves behind the returned
/// reference is what the wrapper holds afterwards.
impl<F> DerefMut for Fast<F> {
    #[inline(always)]
    fn deref_mut(&mut self) -> (r: &mut F)
        ensures
            *r == old(self)@,
            final(self)@ == *final(r),
    {
        &mut self.0
    }
}

} // verus!
