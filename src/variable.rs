use vstd::prelude::*;
use crate::scalar::Scalar;
use crate::tape::{records, GradientTape, LocalGrad};

verus! {

/// A node of the computation graph: a value and the name that identifies it.
///
/// The engine tells Variables apart by `name` alone; `value` is payload. Two
/// Variables with one name are one node to the gradient engine.
#[derive(Debug)]
pub struct Variable<S> {
    pub value: S,
    pub name: String,
}

impl<S: Copy> Clone for Variable<S> {
    fn clone(&self) -> (r: Variable<S>)
        ensures
            r == *self,
    {
        Variable { value: self.value, name: self.name.clone() }
    }
}

impl<S: Scalar> Variable<S> {
    /// A Variable holding `value`, named `name`, or, without one, by the
    /// tape's next automatic name (`v0`, `v1`, ...).
    pub fn new(value: S, name: Option<String>, tape: &mut GradientTape<S>) -> (r: Variable<S>)
        requires
            name is None ==> old(tape).counter() < usize::MAX,
        ensures
            r.value == value,
            final(tape)@ == old(tape)@,
            old(tape).wf() ==> final(tape).wf(),
            match name {
                Some(n) => r.name == n && final(tape).counter() == old(tape).counter(),
                None => r.name@ == auto_name(old(tape).counter()) && final(tape).counter()
                    == old(tape).counter() + 1,
            },
    {
        let name = match name {
            Some(n) => n,
            None => tape.fresh_name(),
        };
        Variable { value, name }
    }

    /// `self + rhs`, recorded on `tape` with partials `1` and `1`.
    pub fn add(&self, rhs: &Variable<S>, tape: &mut GradientTape<S>) -> (r: Variable<S>)
        requires
            old(tape).wf(),
            old(tape).counter() < usize::MAX,
        ensures
            final(tape).wf(),
            r.value == self.value.spec_plus(rhs.value),
            r.name@ == auto_name(old(tape).counter()),
            final(tape).counter() == old(tape).counter() + 1,
            records(old(tape)@, final(tape)@, seq![*self, *rhs], r, LocalGrad::Add),
    {
        let inputs = vec![self.clone(), rhs.clone()];
        assert(inputs@ =~= seq![*self, *rhs]);
        tape.record(inputs, self.value.plus(rhs.value), LocalGrad::Add)
    }

    /// `self - rhs`, recorded on `tape` with partials `1` and `-1`.
    pub fn sub(&self, rhs: &Variable<S>, tape: &mut GradientTape<S>) -> (r: Variable<S>)
        requires
            old(tape).wf(),
            old(tape).counter() < usize::MAX,
        ensures
            final(tape).wf(),
            r.value == self.value.spec_minus(rhs.value),
            r.name@ == auto_name(old(tape).counter()),
            final(tape).counter() == old(tape).counter() + 1,
            records(old(tape)@, final(tape)@, seq![*self, *rhs], r, LocalGrad::Sub),
    {
        let inputs = vec![self.clone(), rhs.clone()];
        assert(inputs@ =~= seq![*self, *rhs]);
        tape.record(inputs, self.value.minus(rhs.value), LocalGrad::Sub)
    }

    /// `self * rhs`, recorded on `tape` with partials `rhs` and `self`.
    pub fn mul(&self, rhs: &Variable<S>, tape: &mut GradientTape<S>) -> (r: Variable<S>)
        requires
            old(tape).wf(),
            old(tape).counter() < usize::MAX,
        ensures
            final(tape).wf(),
            r.value == self.value.spec_times(rhs.value),
            r.name@ == auto_name(old(tape).counter()),
            final(tape).counter() == old(tape).counter() + 1,
            records(
                old(tape)@,
                final(tape)@,
                seq![*self, *rhs],
                r,
                LocalGrad::Mul { lhs: self.value, rhs: rhs.value },
            ),
    {
        let inputs = vec![self.clone(), rhs.clone()];
        assert(inputs@ =~= seq![*self, *rhs]);
        let rule = LocalGrad::Mul { lhs: self.value, rhs: rhs.value };
        tape.record(inputs, self.value.times(rhs.value), rule)
    }

    /// `self / rhs`, recorded on `tape` with partials `1 / rhs` and
    /// `-(self / (rhs * rhs))`. A zero `rhs` is not special: the scalar's
    /// own division decides what comes out.
    pub fn div(&self, rhs: &Variable<S>, tape: &mut GradientTape<S>) -> (r: Variable<S>)
        requires
            old(tape).wf(),
            old(tape).counter() < usize::MAX,
        ensures
            final(tape).wf(),
            r.value == self.value.spec_divide(rhs.value),
            r.name@ == auto_name(old(tape).counter()),
            final(tape).counter() == old(tape).counter() + 1,
            records(
                old(tape)@,
                final(tape)@,
                seq![*self, *rhs],
                r,
                LocalGrad::Div { lhs: self.value, rhs: rhs.value },
            ),
    {
        let inputs = vec![self.clone(), rhs.clone()];
        assert(inputs@ =~= seq![*self, *rhs]);
        let rule = LocalGrad::Div { lhs: self.value, rhs: rhs.value };
        tape.record(inputs, self.value.divide(rhs.value), rule)
    }

    /// `-self`, recorded on `tape` with partial `-1`.
    pub fn neg(&self, tape: &mut GradientTape<S>) -> (r: Variable<S>)
        requires
            old(tape).wf(),
            old(tape).counter() < usize::MAX,
        ensures
            final(tape).wf(),
            r.value == self.value.spec_negate(),
            r.name@ == auto_name(old(tape).counter()),
            final(tape).counter() == old(tape).counter() + 1,
            records(old(tape)@, final(tape)@, seq![*self], r, LocalGrad::Neg),
    {
        let inputs = vec![self.clone()];
        assert(inputs@ =~= seq![*self]);
        tape.record(inputs, self.value.negate(), LocalGrad::Neg)
    }
}

/// The character of the decimal digit `d`.
pub open spec fn digit_char(d: nat) -> char
    recommends
        d < 10,
{
    seq!['0', '1', '2', '3', '4', '5', '6', '7', '8', '9'][d as int]
}

/// The decimal representation of `n`, most significant digit first, without
/// leading zeros.
pub open spec fn decimal(n: nat) -> Seq<char>
    decreases n,
{
    if n < 10 {
        seq![digit_char(n)]
    } else {
        decimal(n / 10).push(digit_char(n % 10))
    }
}

/// The name given to the `n`-th automatically named Variable of a tape:
/// `v0`, `v1`, ...
pub open spec fn auto_name(n: nat) -> Seq<char> {
    seq!['v'] + decimal(n)
}

fn digit_str(d: usize) -> (r: &'static str)
    requires
        d < 10,
    ensures
        r@ == seq![digit_char(d as nat)],
{
    proof {
        reveal_strlit("0");
        reveal_strlit("1");
        reveal_strlit("2");
        reveal_strlit("3");
        reveal_strlit("4");
        reveal_strlit("5");
        reveal_strlit("6");
        reveal_strlit("7");
        reveal_strlit("8");
        reveal_strlit("9");
    }
    let r = if d == 0 {
        "0"
    } else if d == 1 {
        "1"
    } else if d == 2 {
        "2"
    } else if d == 3 {
        "3"
    } else if d == 4 {
        "4"
    } else if d == 5 {
        "5"
    } else if d == 6 {
        "6"
    } else if d == 7 {
        "7"
    } else if d == 8 {
        "8"
    } else {
        "9"
    };
    assert(r@ =~= seq![digit_char(d as nat)]);
    r
}

/// Appends the decimal digits of `n` to `s`.
fn push_decimal(s: &mut String, n: usize)
    ensures
        final(s)@ == old(s)@ + decimal(n as nat),
    decreases n,
{
    if n >= 10 {
        push_decimal(s, n / 10);
    }
    s.append(digit_str(n % 10));
    assert(final(s)@ =~= old(s)@ + decimal(n as nat));
}

/// The name `v<n>`.
pub fn auto_name_string(n: usize) -> (r: String)
    ensures
        r@ == auto_name(n as nat),
{
    proof {
        reveal_strlit("v");
    }
    let mut s = String::from_str("v");
    push_decimal(&mut s, n);
    s
}

} // verus!
