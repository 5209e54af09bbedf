use vstd::prelude::*;
use crate::forward::Value;
use crate::scalar::Scalar;

verus! {

/// `f(x) = 3 x x + 2 / x`, as the dual-number operations compute it.
pub open spec fn spec_f<S: Scalar>(x: Value<S>) -> Value<S> {
    let a = Value { value: S::spec_from_u8(3), der: S::spec_zero() };
    let b = Value { value: S::spec_from_u8(2), der: S::spec_zero() };
    a.spec_mul(x).spec_mul(x).spec_add(b.spec_div(x))
}

/// `g(x1, x2) = x1 x2`.
pub open spec fn spec_g<S: Scalar>(x1: Value<S>, x2: Value<S>) -> Value<S> {
    x1.spec_mul(x2)
}

/// The input `x` of `f` or `g` at `value`, seeded with tangent `der`.
pub open spec fn seeded<S: Scalar>(value: u8, der: S) -> Value<S> {
    Value { value: S::spec_from_u8(value), der }
}

/// Evaluates `f(x) = 3 x^2 + 2 / x`, with the constants passive.
pub fn f<S: Scalar>(x: Value<S>) -> (r: Value<S>)
    ensures
        r == spec_f(x),
{
    let a = Value::passive(S::from_u8(3));
    let b = Value::passive(S::from_u8(2));
    a.mul(x).mul(x).add(b.div(x))
}

/// Evaluates `g(x1, x2) = x1 x2`.
pub fn g<S: Scalar>(x1: Value<S>, x2: Value<S>) -> (r: Value<S>)
    ensures
        r == spec_g(x1, x2),
{
    x1.mul(x2)
}

/// `f` and its derivative at `x = 2`: the input is seeded with tangent one.
/// Over reals this is `f(2) = 13`, `f'(2) = 11.5`.
pub fn univariate_example<S: Scalar>() -> (y: Value<S>)
    ensures
        y == spec_f(seeded(2, S::spec_one())),
{
    let x = Value::new(S::from_u8(2), S::one());
    f(x)
}

/// The gradient of `g` at `(x1, x2) = (2, 3)`, one partial per pass: pass `i`
/// seeds input `i` with tangent one and the other with zero, then harvests
/// the tangent of the result. Over reals this is `(3, 2)`.
pub fn multivariate_example<S: Scalar>() -> (grad_g: Vec<S>)
    ensures
        grad_g@ == seq![
            spec_g(seeded(2, S::spec_one()), seeded(3, S::spec_zero())).der,
            spec_g(seeded(2, S::spec_zero()), seeded(3, S::spec_one())).der,
        ],
{
    let mut x: Vec<Value<S>> = vec![
        Value::new(S::from_u8(2), S::zero()),
        Value::new(S::from_u8(3), S::zero()),
    ];
    let mut grad_g: Vec<S> = Vec::new();
    let mut i: usize = 0;
    while i < 2
        invariant
            0 <= i <= 2,
            x@ == seq![seeded(2, S::spec_zero()), seeded::<S>(3, S::spec_zero())],
            grad_g@.len() == i,
            i > 0 ==> grad_g@[0] == spec_g(seeded(2, S::spec_one()), seeded(3, S::spec_zero())).der,
            i > 1 ==> grad_g@[1] == spec_g(seeded(2, S::spec_zero()), seeded(3, S::spec_one())).der,
        decreases 2 - i,
    {
        let mut seeded_input = x[i];
        seeded_input.der = S::one();
        x.set(i, seeded_input);
        let y = g(x[0], x[1]);
        grad_g.push(y.der);
        let mut cleaned = x[i];
        cleaned.der = S::zero();
        x.set(i, cleaned);
        i = i + 1;
    }
    assert(grad_g@ =~= seq![
        spec_g(seeded(2, S::spec_one()), seeded(3, S::spec_zero())).der,
        spec_g(seeded(2, S::spec_zero()), seeded(3, S::spec_one())).der,
    ]);
    grad_g
}

} // verus!
