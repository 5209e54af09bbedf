use vstd::prelude::*;
use crate::scalar::Scalar;

verus! {

/// A dual number: a value together with its derivative (tangent) with respect
/// to one seeded input. Arithmetic on dual numbers applies the chain rule to
/// the tangent as it computes the value.
#[derive(Clone, Copy, Debug)]
pub struct Value<S> {
    pub value: S,
    pub der: S,
}

impl<S: Scalar> Value<S> {
    pub open spec fn spec_add(self, rhs: Value<S>) -> Value<S> {
        Value { value: self.value.spec_plus(rhs.value), der: self.der.spec_plus(rhs.der) }
    }

    pub open spec fn spec_sub(self, rhs: Value<S>) -> Value<S> {
        Value { value: self.value.spec_minus(rhs.value), der: self.der.spec_minus(rhs.der) }
    }

    /// The product rule, `(u v)' = v u' + u v'`.
    pub open spec fn spec_mul(self, rhs: Value<S>) -> Value<S> {
        Value {
            value: self.value.spec_times(rhs.value),
            der: rhs.value.spec_times(self.der).spec_plus(self.value.spec_times(rhs.der)),
        }
    }

    /// The reciprocal of `self`, with `(1 / v)' = -v' / v / v`.
    pub open spec fn spec_recip(self) -> Value<S> {
        Value {
            value: S::spec_one().spec_divide(self.value),
            der: self.der.spec_negate().spec_divide(self.value).spec_divide(self.value),
        }
    }

    /// Division as multiplication by the reciprocal.
    pub open spec fn spec_div(self, rhs: Value<S>) -> Value<S> {
        self.spec_mul(rhs.spec_recip())
    }

    pub open spec fn spec_neg(self) -> Value<S> {
        Value { value: self.value.spec_negate(), der: self.der.spec_negate() }
    }

    /// A constant: its derivative is zero.
    pub fn passive(value: S) -> (r: Value<S>)
        ensures
            r == (Value { value, der: S::spec_zero() }),
    {
        Value { value, der: S::zero() }
    }

    pub fn new(value: S, der: S) -> (r: Value<S>)
        ensures
            r == (Value { value, der }),
    {
        Value { value, der }
    }

    /// `max(x, 0)`: `self` where its value is positive, else zero with a zero
    /// derivative.
    pub fn relu(self) -> (r: Value<S>)
        ensures
            r == (if self.value.spec_is_positive() {
                self
            } else {
                Value { value: S::spec_zero(), der: S::spec_zero() }
            }),
    {
        if self.value.is_positive() {
            self
        } else {
            Value::new(S::zero(), S::zero())
        }
    }

    pub fn add(self, rhs: Value<S>) -> (r: Value<S>)
        ensures
            r == self.spec_add(rhs),
    {
        Value { value: self.value.plus(rhs.value), der: self.der.plus(rhs.der) }
    }

    pub fn sub(self, rhs: Value<S>) -> (r: Value<S>)
        ensures
            r == self.spec_sub(rhs),
    {
        Value { value: self.value.minus(rhs.value), der: self.der.minus(rhs.der) }
    }

    pub fn mul(self, rhs: Value<S>) -> (r: Value<S>)
        ensures
            r == self.spec_mul(rhs),
    {
        let value = self.value.times(rhs.value);
        let der = rhs.value.times(self.der).plus(self.value.times(rhs.der));
        Value { value, der }
    }

    pub fn div(self, rhs: Value<S>) -> (r: Value<S>)
        ensures
            r == self.spec_div(rhs),
    {
        let recip = Value {
            value: S::one().divide(rhs.value),
            der: rhs.der.negate().divide(rhs.value).divide(rhs.value),
        };
        self.mul(recip)
    }

    pub fn neg(self) -> (r: Value<S>)
        ensures
            r == self.spec_neg(),
    {
        Value { value: self.value.negate(), der: self.der.negate() }
    }
}

} // verus!
