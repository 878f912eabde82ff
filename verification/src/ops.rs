//! The five binary operators, each in three operand shapes.
//!
//! For every operator the form with a wrapped left and a raw right operand
//! is the one place where the scalars are combined. The other two shapes
//! unwrap or wrap one operand and hand over to it, so the three cannot
//! drift apart.
//!
//! What an operator returns is stated through the operator of `F` itself:
//! the wrapper that comes back holds a result of `F`'s operator on the two
//! scalars, and wherever `F` fixes that result, it holds exactly that.

use crate::fast::Fast;
use std::ops::{Add, Div, Mul, Rem, Sub};
use vstd::prelude::*;
use vstd::std_specs::ops::{
    AddSpec, AddSpecImpl, DivSpec, DivSpecImpl, MulSpec, MulSpecImpl, RemSpec, RemSpecImpl,
    SubSpec, SubSpecImpl,
};

verus! {

/// What `Fast<F> + F` asks for and returns, in terms of `F`'s own `+`.
impl<F: Add<Output = F>> AddSpecImpl<F> for Fast<F> {
    open spec fn obeys_add_spec() -> bool {
        <F as AddSpec>::obeys_add_spec()
    }

    open spec fn add_req(self, rhs: F) -> bool {
        self@.add_req(rhs)
    }

    open spec fn add_spec(self, rhs: F) -> Fast<F> {
        Fast::wrap(self@.add_spec(rhs))
    }
}

/// `Fast<F> + F`: the canonical form of addition.
impl<F: Add<Output = F>> Add<F> for Fast<F> {
    type Output = Fast<F>;

    #[inline(always)]
    fn add(self, rhs: F) -> (r: Fast<F>)
        ensures
            call_ensures(<F as Add>::add, (self@, rhs), r@),
            <F as AddSpec>::obeys_add_spec() ==> r@ == self@.add_spec(rhs),
    {
        Fast::new(self.into_inner() + rhs)
    }
}

/// What `Fast<F> + Fast<F>` asks for and returns, in terms of `F`'s own `+`.
impl<F: Add<Output = F>> AddSpecImpl<Fast<F>> for Fast<F> {
    open spec fn obeys_add_spec() -> bool {
        <F as AddSpec>::obeys_add_spec()
    }

    open spec fn add_req(self, rhs: Fast<F>) -> bool {
        self@.add_req(rhs@)
    }

    open spec fn add_spec(self, rhs: Fast<F>) -> Fast<F> {
        Fast::wrap(self@.add_spec(rhs@))
    }
}

/// `Fast<F> + Fast<F>`: unwraps the right operand for the canonical form.
impl<F: Add<Output = F>> Add<Fast<F>> for Fast<F> {
    type Output = Fast<F>;

    #[inline(always)]
    fn add(self, rhs: Fast<F>) -> (r: Fast<F>)
        ensures
            call_ensures(<F as Add>::add, (self@, rhs@), r@),
            <F as AddSpec>::obeys_add_spec() ==> r@ == self@.add_spec(rhs@),
    {
        self.add(rhs.into_inner())
    }
}

impl<F: Add<Output = F>> Fast<F> {
    /// What [`Fast::raw_add`] returns where `F` fixes the result of its `+`.
    pub open spec fn raw_add_spec(lhs: F, rhs: Fast<F>) -> Fast<F> {
        Fast::wrap(lhs.add_spec(rhs@))
    }

    /// `F + Fast<F>`: wraps the left operand for the canonical form.
    #[inline(always)]
    pub fn raw_add(lhs: F, rhs: Fast<F>) -> (r: Fast<F>)
        requires
            lhs.add_req(rhs@),
        ensures
            call_ensures(<F as Add>::add, (lhs, rhs@), r@),
            <F as AddSpec>::obeys_add_spec() ==> r == Self::raw_add_spec(lhs, rhs),
            <F as AddSpec>::obeys_add_spec() ==> r@ == lhs.add_spec(rhs@),
    {
        Fast::new(lhs).add(rhs.into_inner())
    }
}

/// What `Fast<F> - F` asks for and returns, in terms of `F`'s own `-`.
impl<F: Sub<Output = F>> SubSpecImpl<F> for Fast<F> {
    open spec fn obeys_sub_spec() -> bool {
        <F as SubSpec>::obeys_sub_spec()
    }

    open spec fn sub_req(self, rhs: F) -> bool {
        self@.sub_req(rhs)
    }

    open spec fn sub_spec(self, rhs: F) -> Fast<F> {
        Fast::wrap(self@.sub_spec(rhs))
    }
}

/// `Fast<F> - F`: the canonical form of subtraction.
impl<F: Sub<Output = F>> Sub<F> for Fast<F> {
    type Output = Fast<F>;

    #[inline(always)]
    fn sub(self, rhs: F) -> (r: Fast<F>)
        ensures
            call_ensures(<F as Sub>::sub, (self@, rhs), r@),
            <F as SubSpec>::obeys_sub_spec() ==> r@ == self@.sub_spec(rhs),
    {
        Fast::new(self.into_inner() - rhs)
    }
}

/// What `Fast<F> - Fast<F>` asks for and returns, in terms of `F`'s own `-`.
impl<F: Sub<Output = F>> SubSpecImpl<Fast<F>> for Fast<F> {
    open spec fn obeys_sub_spec() -> bool {
        <F as SubSpec>::obeys_sub_spec()
    }

    open spec fn sub_req(self, rhs: Fast<F>) -> bool {
        self@.sub_req(rhs@)
    }

    open spec fn sub_spec(self, rhs: Fast<F>) -> Fast<F> {
        Fast::wrap(self@.sub_spec(rhs@))
    }
}

/// `Fast<F> - Fast<F>`: unwraps the right operand for the canonical form.
impl<F: Sub<Output = F>> Sub<Fast<F>> for Fast<F> {
    type Output = Fast<F>;

    #[inline(always)]
    fn sub(self, rhs: Fast<F>) -> (r: Fast<F>)
        ensures
            call_ensures(<F as Sub>::sub, (self@, rhs@), r@),
            <F as SubSpec>::obeys_sub_spec() ==> r@ == self@.sub_spec(rhs@),
    {
        self.sub(rhs.into_inner())
    }
}

impl<F: Sub<Output = F>> Fast<F> {
    /// What [`Fast::raw_sub`] returns where `F` fixes the result of its `-`.
    pub open spec fn raw_sub_spec(lhs: F, rhs: Fast<F>) -> Fast<F> {
        Fast::wrap(lhs.sub_spec(rhs@))
    }

    /// `F - Fast<F>`: wraps the left operand for the canonical form.
    #[inline(always)]
    pub fn raw_sub(lhs: F, rhs: Fast<F>) -> (r: Fast<F>)
        requires
            lhs.sub_req(rhs@),
        ensures
            call_ensures(<F as Sub>::sub, (lhs, rhs@), r@),
            <F as SubSpec>::obeys_sub_spec() ==> r == Self::raw_sub_spec(lhs, rhs),
            <F as SubSpec>::obeys_sub_spec() ==> r@ == lhs.sub_spec(rhs@),
    {
        Fast::new(lhs).sub(rhs.into_inner())
    }
}

/// What `Fast<F> * F` asks for and returns, in terms of `F`'s own `*`.
impl<F: Mul<Output = F>> MulSpecImpl<F> for Fast<F> {
    open spec fn obeys_mul_spec() -> bool {
        <F as MulSpec>::obeys_mul_spec()
    }

    open spec fn mul_req(self, rhs: F) -> bool {
        self@.mul_req(rhs)
    }

    open spec fn mul_spec(self, rhs: F) -> Fast<F> {
        Fast::wrap(self@.mul_spec(rhs))
    }
}

/// `Fast<F> * F`: the canonical form of multiplication.
impl<F: Mul<Output = F>> Mul<F> for Fast<F> {
    type Output = Fast<F>;

    #[inline(always)]
    fn mul(self, rhs: F) -> (r: Fast<F>)
        ensures
            call_ensures(<F as Mul>::mul, (self@, rhs), r@),
            <F as MulSpec>::obeys_mul_spec() ==> r@ == self@.mul_spec(rhs),
    {
        Fast::new(self.into_inner() * rhs)
    }
}

/// What `Fast<F> * Fast<F>` asks for and returns, in terms of `F`'s own `*`.
impl<F: Mul<Output = F>> MulSpecImpl<Fast<F>> for Fast<F> {
    open spec fn obeys_mul_spec() -> bool {
        <F as MulSpec>::obeys_mul_spec()
    }

    open spec fn mul_req(self, rhs: Fast<F>) -> bool {
        self@.mul_req(rhs@)
    }

    open spec fn mul_spec(self, rhs: Fast<F>) -> Fast<F> {
        Fast::wrap(self@.mul_spec(rhs@))
    }
}

/// `Fast<F> * Fast<F>`: unwraps the right operand for the canonical form.
impl<F: Mul<Output = F>> Mul<Fast<F>> for Fast<F> {
    type Output = Fast<F>;

    #[inline(always)]
    fn mul(self, rhs: Fast<F>) -> (r: Fast<F>)
        ensures
            call_ensures(<F as Mul>::mul, (self@, rhs@), r@),
            <F as MulSpec>::obeys_mul_spec() ==> r@ == self@.mul_spec(rhs@),
    {
        self.mul(rhs.into_inner())
    }
}

impl<F: Mul<Output = F>> Fast<F> {
    /// What [`Fast::raw_mul`] returns where `F` fixes the result of its `*`.
    pub open spec fn raw_mul_spec(lhs: F, rhs: Fast<F>) -> Fast<F> {
        Fast::wrap(lhs.mul_spec(rhs@))
    }

    /// `F * Fast<F>`: wraps the left operand for the canonical form.
    #[inline(always)]
    pub fn raw_mul(lhs: F, rhs: Fast<F>) -> (r: Fast<F>)
        requires
            lhs.mul_req(rhs@),
        ensures
            call_ensures(<F as Mul>::mul, (lhs, rhs@), r@),
            <F as MulSpec>::obeys_mul_spec() ==> r == Self::raw_mul_spec(lhs, rhs),
            <F as MulSpec>::obeys_mul_spec() ==> r@ == lhs.mul_spec(rhs@),
    {
        Fast::new(lhs).mul(rhs.into_inner())
    }
}

/// What `Fast<F> / F` asks for and returns, in terms of `F`'s own `/`.
impl<F: Div<Output = F>> DivSpecImpl<F> for Fast<F> {
    open spec fn obeys_div_spec() -> bool {
        <F as DivSpec>::obeys_div_spec()
    }

    open spec fn div_req(self, rhs: F) -> bool {
        self@.div_req(rhs)
    }

    open spec fn div_spec(self, rhs: F) -> Fast<F> {
        Fast::wrap(self@.div_spec(rhs))
    }
}

/// `Fast<F> / F`: the canonical form of division.
impl<F: Div<Output = F>> Div<F> for Fast<F> {
    type Output = Fast<F>;

    #[inline(always)]
    fn div(self, rhs: F) -> (r: Fast<F>)
        ensures
            call_ensures(<F as Div>::div, (self@, rhs), r@),
            <F as DivSpec>::obeys_div_spec() ==> r@ == self@.div_spec(rhs),
    {
        Fast::new(self.into_inner() / rhs)
    }
}

/// What `Fast<F> / Fast<F>` asks for and returns, in terms of `F`'s own `/`.
impl<F: Div<Output = F>> DivSpecImpl<Fast<F>> for Fast<F> {
    open spec fn obeys_div_spec() -> bool {
        <F as DivSpec>::obeys_div_spec()
    }

    open spec fn div_req(self, rhs: Fast<F>) -> bool {
        self@.div_req(rhs@)
    }

    open spec fn div_spec(self, rhs: Fast<F>) -> Fast<F> {
        Fast::wrap(self@.div_spec(rhs@))
    }
}

/// `Fast<F> / Fast<F>`: unwraps the right operand for the canonical form.
impl<F: Div<Output = F>> Div<Fast<F>> for Fast<F> {
    type Output = Fast<F>;

    #[inline(always)]
    fn div(self, rhs: Fast<F>) -> (r: Fast<F>)
        ensures
            call_ensures(<F as Div>::div, (self@, rhs@), r@),
            <F as DivSpec>::obeys_div_spec() ==> r@ == self@.div_spec(rhs@),
    {
        self.div(rhs.into_inner())
    }
}

impl<F: Div<Output = F>> Fast<F> {
    /// What [`Fast::raw_div`] returns where `F` fixes the result of its `/`.
    pub open spec fn raw_div_spec(lhs: F, rhs: Fast<F>) -> Fast<F> {
        Fast::wrap(lhs.div_spec(rhs@))
    }

    /// `F / Fast<F>`: wraps the left operand for the canonical form.
    #[inline(always)]
    pub fn raw_div(lhs: F, rhs: Fast<F>) -> (r: Fast<F>)
        requires
            lhs.div_req(rhs@),
        ensures
            call_ensures(<F as Div>::div, (lhs, rhs@), r@),
            <F as DivSpec>::obeys_div_spec() ==> r == Self::raw_div_spec(lhs, rhs),
            <F as DivSpec>::obeys_div_spec() ==> r@ == lhs.div_spec(rhs@),
    {
        Fast::new(lhs).div(rhs.into_inner())
    }
}

/// What `Fast<F> % F` asks for and returns, in terms of `F`'s own `%`.
impl<F: Rem<Output = F>> RemSpecImpl<F> for Fast<F> {
    open spec fn obeys_rem_spec() -> bool {
        <F as RemSpec>::obeys_rem_spec()
    }

    open spec fn rem_req(self, rhs: F) -> bool {
        self@.rem_req(rhs)
    }

    open spec fn rem_spec(self, rhs: F) -> Fast<F> {
        Fast::wrap(self@.rem_spec(rhs))
    }
}

/// `Fast<F> % F`: the canonical form of remainder.
impl<F: Rem<Output = F>> Rem<F> for Fast<F> {
    type Output = Fast<F>;

    #[inline(always)]
    fn rem(self, rhs: F) -> (r: Fast<F>)
        ensures
            call_ensures(<F as Rem>::rem, (self@, rhs), r@),
            <F as RemSpec>::obeys_rem_spec() ==> r@ == self@.rem_spec(rhs),
    {
        Fast::new(self.into_inner() % rhs)
    }
}

/// What `Fast<F> % Fast<F>` asks for and returns, in terms of `F`'s own `%`.
impl<F: Rem<Output = F>> RemSpecImpl<Fast<F>> for Fast<F> {
    open spec fn obeys_rem_spec() -> bool {
        <F as RemSpec>::obeys_rem_spec()
    }

    open spec fn rem_req(self, rhs: Fast<F>) -> bool {
        self@.rem_req(rhs@)
    }

    open spec fn rem_spec(self, rhs: Fast<F>) -> Fast<F> {
        Fast::wrap(self@.rem_spec(rhs@))
    }
}

/// `Fast<F> % Fast<F>`: unwraps the right operand for the canonical form.
impl<F: Rem<Output = F>> Rem<Fast<F>> for Fast<F> {
    type Output = Fast<F>;

    #[inline(always)]
    fn rem(self, rhs: Fast<F>) -> (r: Fast<F>)
        ensures
            call_ensures(<F as Rem>::rem, (self@, rhs@), r@),
            <F as RemSpec>::obeys_rem_spec() ==> r@ == self@.rem_spec(rhs@),
    {
        self.rem(rhs.into_inner())
    }
}

impl<F: Rem<Output = F>> Fast<F> {
    /// What [`Fast::raw_rem`] returns where `F` fixes the result of its `%`.
    pub open spec fn raw_rem_spec(lhs: F, rhs: Fast<F>) -> Fast<F> {
        Fast::wrap(lhs.rem_spec(rhs@))
    }

    /// `F % Fast<F>`: wraps the left operand for the canonical form.
    #[inline(always)]
    pub fn raw_rem(lhs: F, rhs: Fast<F>) -> (r: Fast<F>)
        requires
            lhs.rem_req(rhs@),
        ensures
            call_ensures(<F as Rem>::rem, (lhs, rhs@), r@),
            <F as RemSpec>::obeys_rem_spec() ==> r == Self::raw_rem_spec(lhs, rhs),
            <F as RemSpec>::obeys_rem_spec() ==> r@ == lhs.rem_spec(rhs@),
    {
        Fast::new(lhs).rem(rhs.into_inner())
    }
}

} // verus!
