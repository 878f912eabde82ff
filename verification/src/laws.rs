//! What the operand shapes and the two ways of wrapping have in common.
//!
//! Each statement is over the functions through which the operators state
//! their results, so it holds for every scalar type and speaks of the
//! executable operators wherever the scalar type fixes the result of its
//! own operator.

use crate::fast::Fast;
use std::ops::{Add, Deref, Div, Mul, Rem, Sub};
use vstd::prelude::*;
use vstd::std_specs::convert::FromSpec;
use vstd::std_specs::ops::{AddSpec, DivSpec, MulSpec, RemSpec, SubSpec};

verus! {

/// Converting a scalar gives the same wrapper as constructing one from it.
pub proof fn lemma_from_is_new<F>(value: F)
    ensures
        <Fast<F> as FromSpec<F>>::obeys_from_spec(),
        <Fast<F> as FromSpec<F>>::from_spec(value) == Fast::wrap(value),
        <Fast<F> as FromSpec<F>>::from_spec(value)@ == value,
{
    Fast::lemma_wrap_view(value);
}

/// Whatever conversion returns for a scalar, construction returns for it
/// too: the two ways in differ in name only.
pub proof fn lemma_from_returns_what_new_returns<F>(value: F, converted: Fast<F>, made: Fast<F>)
    requires
        call_ensures(<Fast<F> as From<F>>::from, (value,), converted),
        call_ensures(Fast::<F>::new, (value,), made),
    ensures
        converted == made,
        converted@ == value,
{
}

/// Reading through a wrapper that was just made gives back the scalar it
/// was made from.
pub proof fn lemma_access_after_new<F>(value: F, made: Fast<F>, seen: &F)
    requires
        call_ensures(Fast::<F>::new, (value,), made),
        call_ensures(<Fast<F> as Deref>::deref, (&made,), seen),
    ensures
        *seen == value,
{
}

/// Two wrappers with the same scalar inside are the same wrapper.
pub proof fn lemma_same_scalar_same_wrapper<F>(x: Fast<F>, y: Fast<F>)
    requires
        x@ == y@,
    ensures
        x == y,
{
    x.lemma_view_wrap();
    y.lemma_view_wrap();
}

/// The sum of two wrapped scalars is the wrapped sum of the
/// scalars, and it is owed on exactly the operands on which `F` owes its
/// own.
pub proof fn lemma_add_of_wrapped<F: Add<Output = F>>(a: F, b: F)
    ensures
        Fast::wrap(a).add_req(Fast::wrap(b)) == a.add_req(b),
        Fast::wrap(a).add_spec(Fast::wrap(b)) == Fast::wrap(a.add_spec(b)),
        Fast::wrap(a).add_spec(Fast::wrap(b))@ == a.add_spec(b),
{
    Fast::lemma_wrap_view(a);
    Fast::lemma_wrap_view(b);
    Fast::lemma_wrap_view(a.add_spec(b));
}

/// Whatever shape the operands of `+` come in, the wrapper that comes back
/// holds a result of `F`'s own `+` on the two scalars.
pub proof fn lemma_add_returns_scalar_sum<F: Add<Output = F>>(a: F, b: F, r: Fast<F>)
    ensures
        call_ensures(<Fast<F> as Add<F>>::add, (Fast::wrap(a), b), r) ==> call_ensures(
            <F as Add>::add,
            (a, b),
            r@,
        ),
        call_ensures(<Fast<F> as Add<Fast<F>>>::add, (Fast::wrap(a), Fast::wrap(b)), r)
            ==> call_ensures(<F as Add>::add, (a, b), r@),
        call_ensures(Fast::<F>::raw_add, (a, Fast::wrap(b)), r) ==> call_ensures(
            <F as Add>::add,
            (a, b),
            r@,
        ),
{
    Fast::lemma_wrap_view(a);
    Fast::lemma_wrap_view(b);
}

/// The three operand shapes of `+` agree: wrapped with raw, raw with
/// wrapped, and wrapped with wrapped give the same wrapper.
pub proof fn lemma_add_shapes_agree<F: Add<Output = F>>(a: F, b: F)
    ensures
        Fast::wrap(a).add_spec(b) == Fast::wrap(a).add_spec(Fast::wrap(b)),
        Fast::raw_add_spec(a, Fast::wrap(b)) == Fast::wrap(a).add_spec(Fast::wrap(b)),
        Fast::wrap(a).add_req(b) == Fast::wrap(a).add_req(Fast::wrap(b)),
{
    Fast::lemma_wrap_view(a);
    Fast::lemma_wrap_view(b);
}

/// The difference of two wrapped scalars is the wrapped difference of the
/// scalars, and it is owed on exactly the operands on which `F` owes its
/// own.
pub proof fn lemma_sub_of_wrapped<F: Sub<Output = F>>(a: F, b: F)
    ensures
        Fast::wrap(a).sub_req(Fast::wrap(b)) == a.sub_req(b),
        Fast::wrap(a).sub_spec(Fast::wrap(b)) == Fast::wrap(a.sub_spec(b)),
        Fast::wrap(a).sub_spec(Fast::wrap(b))@ == a.sub_spec(b),
{
    Fast::lemma_wrap_view(a);
    Fast::lemma_wrap_view(b);
    Fast::lemma_wrap_view(a.sub_spec(b));
}

/// Whatever shape the operands of `-` come in, the wrapper that comes back
/// holds a result of `F`'s own `-` on the two scalars.
pub proof fn lemma_sub_returns_scalar_difference<F: Sub<Output = F>>(a: F, b: F, r: Fast<F>)
    ensures
        call_ensures(<Fast<F> as Sub<F>>::sub, (Fast::wrap(a), b), r) ==> call_ensures(
            <F as Sub>::sub,
            (a, b),
            r@,
        ),
        call_ensures(<Fast<F> as Sub<Fast<F>>>::sub, (Fast::wrap(a), Fast::wrap(b)), r)
            ==> call_ensures(<F as Sub>::sub, (a, b), r@),
        call_ensures(Fast::<F>::raw_sub, (a, Fast::wrap(b)), r) ==> call_ensures(
            <F as Sub>::sub,
            (a, b),
            r@,
        ),
{
    Fast::lemma_wrap_view(a);
    Fast::lemma_wrap_view(b);
}

/// The three operand shapes of `-` agree: wrapped with raw, raw with
/// wrapped, and wrapped with wrapped give the same wrapper.
pub proof fn lemma_sub_shapes_agree<F: Sub<Output = F>>(a: F, b: F)
    ensures
        Fast::wrap(a).sub_spec(b) == Fast::wrap(a).sub_spec(Fast::wrap(b)),
        Fast::raw_sub_spec(a, Fast::wrap(b)) == Fast::wrap(a).sub_spec(Fast::wrap(b)),
        Fast::wrap(a).sub_req(b) == Fast::wrap(a).sub_req(Fast::wrap(b)),
{
    Fast::lemma_wrap_view(a);
    Fast::lemma_wrap_view(b);
}

/// The product of two wrapped scalars is the wrapped product of the
/// scalars, and it is owed on exactly the operands on which `F` owes its
/// own.
pub proof fn lemma_mul_of_wrapped<F: Mul<Output = F>>(a: F, b: F)
    ensures
        Fast::wrap(a).mul_req(Fast::wrap(b)) == a.mul_req(b),
        Fast::wrap(a).mul_spec(Fast::wrap(b)) == Fast::wrap(a.mul_spec(b)),
        Fast::wrap(a).mul_spec(Fast::wrap(b))@ == a.mul_spec(b),
{
    Fast::lemma_wrap_view(a);
    Fast::lemma_wrap_view(b);
    Fast::lemma_wrap_view(a.mul_spec(b));
}

/// Whatever shape the operands of `*` come in, the wrapper that comes back
/// holds a result of `F`'s own `*` on the two scalars.
pub proof fn lemma_mul_returns_scalar_product<F: Mul<Output = F>>(a: F, b: F, r: Fast<F>)
    ensures
        call_ensures(<Fast<F> as Mul<F>>::mul, (Fast::wrap(a), b), r) ==> call_ensures(
            <F as Mul>::mul,
            (a, b),
            r@,
        ),
        call_ensures(<Fast<F> as Mul<Fast<F>>>::mul, (Fast::wrap(a), Fast::wrap(b)), r)
            ==> call_ensures(<F as Mul>::mul, (a, b), r@),
        call_ensures(Fast::<F>::raw_mul, (a, Fast::wrap(b)), r) ==> call_ensures(
            <F as Mul>::mul,
            (a, b),
            r@,
        ),
{
    Fast::lemma_wrap_view(a);
    Fast::lemma_wrap_view(b);
}

/// The three operand shapes of `*` agree: wrapped with raw, raw with
/// wrapped, and wrapped with wrapped give the same wrapper.
pub proof fn lemma_mul_shapes_agree<F: Mul<Output = F>>(a: F, b: F)
    ensures
        Fast::wrap(a).mul_spec(b) == Fast::wrap(a).mul_spec(Fast::wrap(b)),
        Fast::raw_mul_spec(a, Fast::wrap(b)) == Fast::wrap(a).mul_spec(Fast::wrap(b)),
        Fast::wrap(a).mul_req(b) == Fast::wrap(a).mul_req(Fast::wrap(b)),
{
    Fast::lemma_wrap_view(a);
    Fast::lemma_wrap_view(b);
}

/// The quotient of two wrapped scalars is the wrapped quotient of the
/// scalars, and it is owed on exactly the operands on which `F` owes its
/// own.
pub proof fn lemma_div_of_wrapped<F: Div<Output = F>>(a: F, b: F)
    ensures
        Fast::wrap(a).div_req(Fast::wrap(b)) == a.div_req(b),
        Fast::wrap(a).div_spec(Fast::wrap(b)) == Fast::wrap(a.div_spec(b)),
        Fast::wrap(a).div_spec(Fast::wrap(b))@ == a.div_spec(b),
{
    Fast::lemma_wrap_view(a);
    Fast::lemma_wrap_view(b);
    Fast::lemma_wrap_view(a.div_spec(b));
}

/// Whatever shape the operands of `/` come in, the wrapper that comes back
/// holds a result of `F`'s own `/` on the two scalars.
pub proof fn lemma_div_returns_scalar_quotient<F: Div<Output = F>>(a: F, b: F, r: Fast<F>)
    ensures
        call_ensures(<Fast<F> as Div<F>>::div, (Fast::wrap(a), b), r) ==> call_ensures(
            <F as Div>::div,
            (a, b),
            r@,
        ),
        call_ensures(<Fast<F> as Div<Fast<F>>>::div, (Fast::wrap(a), Fast::wrap(b)), r)
            ==> call_ensures(<F as Div>::div, (a, b), r@),
        call_ensures(Fast::<F>::raw_div, (a, Fast::wrap(b)), r) ==> call_ensures(
            <F as Div>::div,
            (a, b),
            r@,
        ),
{
    Fast::lemma_wrap_view(a);
    Fast::lemma_wrap_view(b);
}

/// The three operand shapes of `/` agree: wrapped with raw, raw with
/// wrapped, and wrapped with wrapped give the same wrapper.
pub proof fn lemma_div_shapes_agree<F: Div<Output = F>>(a: F, b: F)
    ensures
        Fast::wrap(a).div_spec(b) == Fast::wrap(a).div_spec(Fast::wrap(b)),
        Fast::raw_div_spec(a, Fast::wrap(b)) == Fast::wrap(a).div_spec(Fast::wrap(b)),
        Fast::wrap(a).div_req(b) == Fast::wrap(a).div_req(Fast::wrap(b)),
{
    Fast::lemma_wrap_view(a);
    Fast::lemma_wrap_view(b);
}

/// The remainder of two wrapped scalars is the wrapped remainder of the
/// scalars, and it is owed on exactly the operands on which `F` owes its
/// own.
pub proof fn lemma_rem_of_wrapped<F: Rem<Output = F>>(a: F, b: F)
    ensures
        Fast::wrap(a).rem_req(Fast::wrap(b)) == a.rem_req(b),
        Fast::wrap(a).rem_spec(Fast::wrap(b)) == Fast::wrap(a.rem_spec(b)),
        Fast::wrap(a).rem_spec(Fast::wrap(b))@ == a.rem_spec(b),
{
    Fast::lemma_wrap_view(a);
    Fast::lemma_wrap_view(b);
    Fast::lemma_wrap_view(a.rem_spec(b));
}

/// Whatever shape the operands of `%` come in, the wrapper that comes back
/// holds a result of `F`'s own `%` on the two scalars.
pub proof fn lemma_rem_returns_scalar_remainder<F: Rem<Output = F>>(a: F, b: F, r: Fast<F>)
    ensures
        call_ensures(<Fast<F> as Rem<F>>::rem, (Fast::wrap(a), b), r) ==> call_ensures(
            <F as Rem>::rem,
            (a, b),
            r@,
        ),
        call_ensures(<Fast<F> as Rem<Fast<F>>>::rem, (Fast::wrap(a), Fast::wrap(b)), r)
            ==> call_ensures(<F as Rem>::rem, (a, b), r@),
        call_ensures(Fast::<F>::raw_rem, (a, Fast::wrap(b)), r) ==> call_ensures(
            <F as Rem>::rem,
            (a, b),
            r@,
        ),
{
    Fast::lemma_wrap_view(a);
    Fast::lemma_wrap_view(b);
}

/// The three operand shapes of `%` agree: wrapped with raw, raw with
/// wrapped, and wrapped with wrapped give the same wrapper.
pub proof fn lemma_rem_shapes_agree<F: Rem<Output = F>>(a: F, b: F)
    ensures
        Fast::wrap(a).rem_spec(b) == Fast::wrap(a).rem_spec(Fast::wrap(b)),
        Fast::raw_rem_spec(a, Fast::wrap(b)) == Fast::wrap(a).rem_spec(Fast::wrap(b)),
        Fast::wrap(a).rem_req(b) == Fast::wrap(a).rem_req(Fast::wrap(b)),
{
    Fast::lemma_wrap_view(a);
    Fast::lemma_wrap_view(b);
}

} // verus!
