//! Compound assignment, derived once for all operand types.
//!
//! Each in-place form computes the binary operator on a copy of the
//! wrapper and stores the result back. Nothing here depends on the scalar
//! type or on the shape of the right operand: whatever the binary operator
//! accepts on the right, its in-place form accepts too.

use crate::fast::Fast;
use std::ops::{
    Add, AddAssign, Div, DivAssign, Mul, MulAssign, Rem, RemAssign, Sub, SubAssign,
};
use vstd::prelude::*;
use vstd::std_specs::ops::{AddSpec, DivSpec, MulSpec, RemSpec, SubSpec};

verus! {

/// `x += rhs` leaves in `x` what `x + rhs` returns.
impl<F, Rhs> AddAssign<Rhs> for Fast<F> where Fast<F>: Add<Rhs, Output = Fast<F>> + Copy {
    #[inline(always)]
    fn add_assign(&mut self, rhs: Rhs)
        requires
            (*old(self)).add_req(rhs),
        ensures
            call_ensures(<Fast<F> as Add<Rhs>>::add, (*old(self), rhs), *final(self)),
            <Fast<F> as AddSpec<Rhs>>::obeys_add_spec() ==> *final(self) == (*old(self)).add_spec(
                rhs,
            ),
    {
        *self = (*self).add(rhs)
    }
}

/// `x -= rhs` leaves in `x` what `x - rhs` returns.
impl<F, Rhs> SubAssign<Rhs> for Fast<F> where Fast<F>: Sub<Rhs, Output = Fast<F>> + Copy {
    #[inline(always)]
    fn sub_assign(&mut self, rhs: Rhs)
        requires
            (*old(self)).sub_req(rhs),
        ensures
            call_ensures(<Fast<F> as Sub<Rhs>>::sub, (*old(self), rhs), *final(self)),
            <Fast<F> as SubSpec<Rhs>>::obeys_sub_spec() ==> *final(self) == (*old(self)).sub_spec(
                rhs,
            ),
    {
        *self = (*self).sub(rhs)
    }
}

/// `x *= rhs` leaves in `x` what `x * rhs` returns.
impl<F, Rhs> MulAssign<Rhs> for Fast<F> where Fast<F>: Mul<Rhs, Output = Fast<F>> + Copy {
    #[inline(always)]
    fn mul_assign(&mut self, rhs: Rhs)
        requires
            (*old(self)).mul_req(rhs),
        ensures
            call_ensures(<Fast<F> as Mul<Rhs>>::mul, (*old(self), rhs), *final(self)),
            <Fast<F> as MulSpec<Rhs>>::obeys_mul_spec() ==> *final(self) == (*old(self)).mul_spec(
                rhs,
            ),
    {
        *self = (*self).mul(rhs)
    }
}

/// `x /= rhs` leaves in `x` what `x / rhs` returns.
impl<F, Rhs> DivAssign<Rhs> for Fast<F> where Fast<F>: Div<Rhs, Output = Fast<F>> + Copy {
    #[inline(always)]
    fn div_assign(&mut self, rhs: Rhs)
        requires
            (*old(self)).div_req(rhs),
        ensures
            call_ensures(<Fast<F> as Div<Rhs>>::div, (*old(self), rhs), *final(self)),
            <Fast<F> as DivSpec<Rhs>>::obeys_div_spec() ==> *final(self) == (*old(self)).div_spec(
                rhs,
            ),
    {
        *self = (*self).div(rhs)
    }
}

/// `x %= rhs` leaves in `x` what `x % rhs` returns.
impl<F, Rhs> RemAssign<Rhs> for Fast<F> where Fast<F>: Rem<Rhs, Output = Fast<F>> + Copy {
    #[inline(always)]
    fn rem_assign(&mut self, rhs: Rhs)
        requires
            (*old(self)).rem_req(rhs),
        ensures
            call_ensures(<Fast<F> as Rem<Rhs>>::rem, (*old(self), rhs), *final(self)),
            <Fast<F> as RemSpec<Rhs>>::obeys_rem_spec() ==> *final(self) == (*old(self)).rem_spec(
                rhs,
            ),
    {
        *self = (*self).rem(rhs)
    }
}

} // verus!
