use vstd::prelude::*;
use crate::scalar::Scalar;
use crate::variable::{auto_name, auto_name_string, Variable};

verus! {

/// The local derivative rule of one recorded operation, holding the input
/// values that the rule needs as they were when the operation was recorded.
#[derive(Clone, Copy, Debug)]
pub enum LocalGrad<S> {
    Add,
    Sub,
    Mul { lhs: S, rhs: S },
    Div { lhs: S, rhs: S },
    Neg,
}

impl<S: Scalar> LocalGrad<S> {
    /// The partial derivative of the output with respect to each input, in
    /// input order.
    pub open spec fn partials(self) -> Seq<S> {
        match self {
            LocalGrad::Add => seq![S::spec_one(), S::spec_one()],
            LocalGrad::Sub => seq![S::spec_one(), S::spec_one().spec_negate()],
            LocalGrad::Mul { lhs, rhs } => seq![rhs, lhs],
            LocalGrad::Div { lhs, rhs } => seq![
                S::spec_one().spec_divide(rhs),
                lhs.spec_divide(rhs.spec_times(rhs)).spec_negate(),
            ],
            LocalGrad::Neg => seq![S::spec_one().spec_negate()],
        }
    }

    /// The adjoint of the single output, an absent one counting as zero.
    pub open spec fn output_adjoint(adjoints: Seq<Option<S>>) -> S {
        match adjoints[0] {
            Some(g) => g,
            None => S::spec_zero(),
        }
    }

    /// The vector-Jacobian product: the output adjoint times each partial.
    pub open spec fn vjp(self, adjoints: Seq<Option<S>>) -> Seq<S> {
        self.partials().map_values(|p: S| Self::output_adjoint(adjoints).spec_times(p))
    }

    fn partials_vec(&self) -> (r: Vec<S>)
        ensures
            r@ == self.partials(),
    {
        let r = match self {
            LocalGrad::Add => vec![S::one(), S::one()],
            LocalGrad::Sub => vec![S::one(), S::one().negate()],
            LocalGrad::Mul { lhs, rhs } => vec![*rhs, *lhs],
            LocalGrad::Div { lhs, rhs } => vec![
                S::one().divide(*rhs),
                lhs.divide(rhs.times(*rhs)).negate(),
            ],
            LocalGrad::Neg => vec![S::one().negate()],
        };
        assert(r@ =~= self.partials());
        r
    }
}

/// A local gradient function: given one adjoint (or none) per output of an
/// operation, it returns one adjoint per input.
pub trait CloneableFn<S>: Sized {
    /// How many inputs the operation has.
    spec fn arity(&self) -> nat;

    spec fn spec_propagate(&self, adjoints: Seq<Option<S>>) -> Seq<S>;

    fn propagate(&self, adjoints: &Vec<Option<S>>) -> (r: Vec<S>)
        requires
            adjoints@.len() == 1,
        ensures
            r@ == self.spec_propagate(adjoints@),
            r@.len() == self.arity(),
    ;

    fn clone_box(&self) -> (r: Self)
        ensures
            r == *self,
    ;
}

impl<S: Scalar> CloneableFn<S> for LocalGrad<S> {
    open spec fn arity(&self) -> nat {
        self.partials().len()
    }

    open spec fn spec_propagate(&self, adjoints: Seq<Option<S>>) -> Seq<S> {
        self.vjp(adjoints)
    }

    fn propagate(&self, adjoints: &Vec<Option<S>>) -> (r: Vec<S>) {
        let g = match adjoints[0] {
            Some(g) => g,
            None => S::zero(),
        };
        let partials = self.partials_vec();
        let mut r: Vec<S> = Vec::new();
        let mut i: usize = 0;
        while i < partials.len()
            invariant
                0 <= i <= partials@.len(),
                partials@ == self.partials(),
                g == Self::output_adjoint(adjoints@),
                r@ =~= self.vjp(adjoints@).take(i as int),
            decreases partials@.len() - i,
        {
            r.push(g.times(partials[i]));
            i = i + 1;
        }
        r
    }

    fn clone_box(&self) -> (r: LocalGrad<S>) {
        *self
    }
}

/// One recorded operation: its inputs, its outputs and its local gradient
/// rule.
#[derive(Debug)]
pub struct TapeEntry<S> {
    pub inputs: Vec<Variable<S>>,
    pub outputs: Vec<Variable<S>>,
    pub propagate: LocalGrad<S>,
}

impl<S: Scalar> TapeEntry<S> {
    /// One output, and as many inputs as the rule has partials.
    pub open spec fn wf(self) -> bool {
        &&& self.outputs@.len() == 1
        &&& self.inputs@.len() == self.propagate.arity()
    }

    pub fn new(inputs: Vec<Variable<S>>, outputs: Vec<Variable<S>>, propagate: LocalGrad<S>) -> (r:
        TapeEntry<S>)
        ensures
            r == (TapeEntry { inputs, outputs, propagate }),
    {
        TapeEntry { inputs, outputs, propagate }
    }
}

impl<S: Scalar> Clone for TapeEntry<S> {
    fn clone(&self) -> (r: TapeEntry<S>)
        ensures
            r.inputs@ == self.inputs@,
            r.outputs@ == self.outputs@,
            r.propagate == self.propagate,
    {
        let inputs = self.inputs.clone();
        let outputs = self.outputs.clone();
        assert(inputs@ =~= self.inputs@);
        assert(outputs@ =~= self.outputs@);
        TapeEntry { inputs, outputs, propagate: self.propagate.clone_box() }
    }
}

/// That `after` is `before` with one entry appended, which records `rule`
/// applied to `inputs` giving `output`.
pub open spec fn records<S>(
    before: Seq<TapeEntry<S>>,
    after: Seq<TapeEntry<S>>,
    inputs: Seq<Variable<S>>,
    output: Variable<S>,
    rule: LocalGrad<S>,
) -> bool {
    &&& after.len() == before.len() + 1
    &&& after.drop_last() == before
    &&& after.last().inputs@ == inputs
    &&& after.last().outputs@ == seq![output]
    &&& after.last().propagate == rule
}

/// A cleared tape names its next two automatic Variables `v0` and `v1`.
pub proof fn names_restart_after_clear<S: Scalar>(cleared: GradientTape<S>)
    requires
        cleared@ == Seq::<TapeEntry<S>>::empty(),
        cleared.counter() == 0,
    ensures
        auto_name(cleared.counter()) == seq!['v', '0'],
        auto_name(cleared.counter() + 1) == seq!['v', '1'],
{
    assert(auto_name(0) =~= seq!['v', '0']);
    assert(auto_name(1) =~= seq!['v', '1']);
}

/// The record of one computation: its operations in the order they ran, and
/// the counter that names new Variables.
pub struct GradientTape<S> {
    entries: Vec<TapeEntry<S>>,
    counter: usize,
}

impl<S: Scalar> View for GradientTape<S> {
    type V = Seq<TapeEntry<S>>;

    closed spec fn view(&self) -> Seq<TapeEntry<S>> {
        self.entries@
    }
}

impl<S: Scalar> GradientTape<S> {
    /// Every entry is well formed.
    pub open spec fn wf(self) -> bool {
        forall|i: int| 0 <= i < self@.len() ==> (#[trigger] self@[i]).wf()
    }

    /// How many Variables have been named automatically since the tape was
    /// made or last cleared.
    pub closed spec fn counter(self) -> nat {
        self.counter as nat
    }

    pub fn new() -> (r: GradientTape<S>)
        ensures
            r@ == Seq::<TapeEntry<S>>::empty(),
            r.counter() == 0,
            r.wf(),
    {
        GradientTape { entries: Vec::new(), counter: 0 }
    }

    /// Appends `entry` at the end of the tape.
    pub fn add_entry(&mut self, entry: TapeEntry<S>)
        requires
            old(self).wf(),
            entry.wf(),
        ensures
            final(self).wf(),
            final(self)@ == old(self)@.push(entry),
            final(self).counter() == old(self).counter(),
    {
        self.entries.push(entry);
        assert forall|i: int| 0 <= i < self@.len() implies (#[trigger] self@[i]).wf() by {
            if i < old(self)@.len() {
                assert(self@[i] == old(self)@[i]);
            }
        }
    }

    /// Empties the tape and restarts automatic names at `v0`.
    pub fn clear(&mut self)
        ensures
            final(self)@ == Seq::<TapeEntry<S>>::empty(),
            final(self).counter() == 0,
            final(self).wf(),
    {
        self.entries.clear();
        self.counter = 0;
    }

    /// The next automatic name, `v<counter>`; the counter moves on by one.
    pub fn fresh_name(&mut self) -> (r: String)
        requires
            old(self).counter() < usize::MAX,
        ensures
            r@ == auto_name(old(self).counter()),
            final(self).counter() == old(self).counter() + 1,
            final(self)@ == old(self)@,
    {
        let r = auto_name_string(self.counter);
        self.counter = self.counter + 1;
        assert(self@ == old(self)@);
        r
    }

    /// The recorded entries, in recording order.
    pub fn entries(&self) -> (r: &Vec<TapeEntry<S>>)
        ensures
            r@ == self@,
    {
        &self.entries
    }

    /// Appends the entry for `rule` applied to `inputs`, whose result has
    /// value `value` and the next automatic name, and returns that result.
    pub(crate) fn record(&mut self, inputs: Vec<Variable<S>>, value: S, rule: LocalGrad<S>) -> (r: Variable<S>)
        requires
            old(self).wf(),
            old(self).counter() < usize::MAX,
            inputs@.len() == rule.arity(),
        ensures
            final(self).wf(),
            r.value == value,
            r.name@ == auto_name(old(self).counter()),
            final(self).counter() == old(self).counter() + 1,
            records(old(self)@, final(self)@, inputs@, r, rule),
    {
        let name = self.fresh_name();
        let r = Variable { value, name };
        let outputs = vec![r.clone()];
        let entry = TapeEntry::new(inputs, outputs, rule);
        assert(entry.outputs@ =~= seq![r]);
        let ghost before = self@;
        self.add_entry(entry);
        assert(self@.drop_last() =~= before);
        r
    }
}

} // verus!
