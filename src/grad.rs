use vstd::prelude::*;
use crate::scalar::Scalar;
use crate::tape::{CloneableFn, GradientTape, TapeEntry};
use crate::variable::Variable;

verus! {

/// The adjoint that `acc` holds for `name`, if it holds one.
pub open spec fn lookup<S>(acc: Map<Seq<char>, S>, name: Seq<char>) -> Option<S> {
    if acc.contains_key(name) {
        Some(acc[name])
    } else {
        None
    }
}

/// The adjoint of each of `vars`, in order, each absent where `acc` holds
/// none for its name.
pub open spec fn lookup_all<S>(vars: Seq<Variable<S>>, acc: Map<Seq<char>, S>) -> Seq<Option<S>> {
    vars.map_values(|v: Variable<S>| lookup(acc, v.name@))
}

pub open spec fn all_absent<S>(adjoints: Seq<Option<S>>) -> bool {
    forall|i: int| 0 <= i < adjoints.len() ==> adjoints[i] is None
}

/// Adds `g` to the adjoint of `name`, or makes `g` its adjoint where it has
/// none yet.
pub open spec fn merge<S: Scalar>(acc: Map<Seq<char>, S>, name: Seq<char>, g: S) -> Map<
    Seq<char>,
    S,
> {
    if acc.contains_key(name) {
        acc.insert(name, acc[name].spec_plus(g))
    } else {
        acc.insert(name, g)
    }
}

/// Merges `grads[i]` into the adjoint of `inputs[i]`, for each input in
/// order.
pub open spec fn merge_all<S: Scalar>(
    acc: Map<Seq<char>, S>,
    inputs: Seq<Variable<S>>,
    grads: Seq<S>,
) -> Map<Seq<char>, S>
    decreases inputs.len(),
{
    if inputs.len() == 0 {
        acc
    } else {
        merge(
            merge_all(acc, inputs.drop_last(), grads),
            inputs.last().name@,
            grads[inputs.len() - 1],
        )
    }
}

/// One step of the reverse walk: an entry none of whose outputs has an
/// adjoint is skipped; otherwise its local gradient function turns the
/// output adjoints into input adjoints, which are merged by summation.
pub open spec fn step<S: Scalar>(e: TapeEntry<S>, acc: Map<Seq<char>, S>) -> Map<Seq<char>, S> {
    let adjoints = lookup_all(e.outputs@, acc);
    if all_absent(adjoints) {
        acc
    } else {
        merge_all(acc, e.inputs@, e.propagate.vjp(adjoints))
    }
}

/// Walks `entries` from the last recorded to the first, one step each.
pub open spec fn backprop<S: Scalar>(entries: Seq<TapeEntry<S>>, acc: Map<Seq<char>, S>) -> Map<
    Seq<char>,
    S,
>
    decreases entries.len(),
{
    if entries.len() == 0 {
        acc
    } else {
        backprop(entries.drop_last(), step(entries.last(), acc))
    }
}

/// The adjoint of every name that the loss named `loss` reaches back to
/// through `entries`, seeded with one for the loss itself.
pub open spec fn adjoints<S: Scalar>(entries: Seq<TapeEntry<S>>, loss: Seq<char>) -> Map<
    Seq<char>,
    S,
> {
    backprop(entries, map![loss => S::spec_one()])
}

/// The partial derivative of `loss` with respect to each of `wanted`, in the
/// order of `wanted`; absent for a Variable that the loss does not reach.
pub open spec fn gradients<S: Scalar>(
    entries: Seq<TapeEntry<S>>,
    loss: Variable<S>,
    wanted: Seq<Variable<S>>,
) -> Seq<Option<S>> {
    lookup_all(wanted, adjoints(entries, loss.name@))
}

/// Whether `name` is the name of one of `vars`.
pub open spec fn names_any<S>(vars: Seq<Variable<S>>, name: Seq<char>) -> bool {
    exists|j: int| 0 <= j < vars.len() && #[trigger] vars[j].name@ == name
}

/// Whether `name` occurs among the inputs or the outputs of `e`.
pub open spec fn mentions<S>(e: TapeEntry<S>, name: Seq<char>) -> bool {
    names_any(e.inputs@, name) || names_any(e.outputs@, name)
}

/// Each entry introduces its outputs: the name of an output occurs neither
/// among the entry's own inputs nor anywhere in an earlier entry. Entries
/// recorded by the operators on distinctly named Variables have this shape;
/// names that collide break it.
pub open spec fn names_fresh<S>(entries: Seq<TapeEntry<S>>) -> bool {
    forall|i: int, o: int|
        0 <= i < entries.len() && 0 <= o < entries[i].outputs@.len() ==> {
            let name = #[trigger] entries[i].outputs@[o].name@;
            &&& !names_any(entries[i].inputs@, name)
            &&& forall|k: int| 0 <= k < i ==> !mentions(#[trigger] entries[k], name)
        }
}

proof fn lemma_backprop_append<S: Scalar>(
    a: Seq<TapeEntry<S>>,
    b: Seq<TapeEntry<S>>,
    acc: Map<Seq<char>, S>,
)
    ensures
        backprop(a + b, acc) == backprop(a, backprop(b, acc)),
    decreases b.len(),
{
    if b.len() == 0 {
        assert(a + b =~= a);
    } else {
        assert((a + b).drop_last() =~= a + b.drop_last());
        assert((a + b).last() == b.last());
        lemma_backprop_append(a, b.drop_last(), step(b.last(), acc));
    }
}

/// Entries none of whose outputs has an adjoint are all skipped.
proof fn lemma_backprop_skips<S: Scalar>(entries: Seq<TapeEntry<S>>, acc: Map<Seq<char>, S>)
    requires
        forall|i: int, o: int|
            0 <= i < entries.len() && 0 <= o < entries[i].outputs@.len() ==> !acc.contains_key(
                #[trigger] entries[i].outputs@[o].name@,
            ),
    ensures
        backprop(entries, acc) == acc,
    decreases entries.len(),
{
    if entries.len() > 0 {
        let e = entries.last();
        let adjoints = lookup_all(e.outputs@, acc);
        assert forall|o: int| 0 <= o < adjoints.len() implies adjoints[o] is None by {
            assert(e.outputs@[o] == entries[entries.len() - 1].outputs@[o]);
        }
        assert(step(e, acc) == acc);
        let rest = entries.drop_last();
        assert forall|i: int, o: int|
            0 <= i < rest.len() && 0 <= o < rest[i].outputs@.len() implies !acc.contains_key(
            #[trigger] rest[i].outputs@[o].name@,
        ) by {
            assert(rest[i] == entries[i]);
        }
        lemma_backprop_skips(rest, acc);
    }
}

proof fn lemma_merge_all_keeps<S: Scalar>(
    acc: Map<Seq<char>, S>,
    inputs: Seq<Variable<S>>,
    grads: Seq<S>,
    name: Seq<char>,
)
    requires
        !names_any(inputs, name),
    ensures
        lookup(merge_all(acc, inputs, grads), name) == lookup(acc, name),
    decreases inputs.len(),
{
    if inputs.len() > 0 {
        assert(inputs.last().name@ == inputs[inputs.len() - 1].name@);
        assert forall|j: int| 0 <= j < inputs.drop_last().len() implies #[trigger] inputs.drop_last()[j].name@
            != name by {
            assert(inputs.drop_last()[j] == inputs[j]);
        }
        lemma_merge_all_keeps(acc, inputs.drop_last(), grads, name);
    }
}

/// The adjoint of a name that no entry takes as an input never changes.
proof fn lemma_backprop_keeps<S: Scalar>(
    entries: Seq<TapeEntry<S>>,
    acc: Map<Seq<char>, S>,
    name: Seq<char>,
)
    requires
        forall|i: int| 0 <= i < entries.len() ==> !names_any(#[trigger] entries[i].inputs@, name),
    ensures
        lookup(backprop(entries, acc), name) == lookup(acc, name),
    decreases entries.len(),
{
    if entries.len() > 0 {
        let e = entries.last();
        assert(e == entries[entries.len() - 1]);
        let adjoints = lookup_all(e.outputs@, acc);
        if !all_absent(adjoints) {
            lemma_merge_all_keeps(acc, e.inputs@, e.propagate.vjp(adjoints), name);
        }
        let rest = entries.drop_last();
        assert forall|i: int| 0 <= i < rest.len() implies !names_any(#[trigger] rest[i].inputs@, name) by {
            assert(rest[i] == entries[i]);
        }
        lemma_backprop_keeps(rest, step(e, acc), name);
    }
}

/// The gradient of a Variable with respect to itself is one, whatever else
/// the tape holds, as long as its entries introduce their outputs.
pub proof fn seed_gradient_is_one<S: Scalar>(tape: GradientTape<S>, x: Variable<S>)
    requires
        names_fresh(tape@),
    ensures
        gradients(tape@, x, seq![x]) == seq![Some(S::spec_one())],
{
    let entries = tape@;
    let seed = map![x.name@ => S::spec_one()];
    let result = adjoints(entries, x.name@);
    if exists|p: int, o: int|
        0 <= p < entries.len() && 0 <= o < entries[p].outputs@.len() && #[trigger] entries[p].outputs@[o].name@
            == x.name@ {
        let (p, o) = choose|p: int, o: int|
            0 <= p < entries.len() && 0 <= o < entries[p].outputs@.len() && #[trigger] entries[p].outputs@[o].name@
                == x.name@;
        let before = entries.take(p + 1);
        let after = entries.skip(p + 1);
        assert(entries =~= before + after);
        lemma_backprop_append(before, after, seed);
        assert forall|i: int, q: int|
            0 <= i < after.len() && 0 <= q < after[i].outputs@.len() implies !seed.contains_key(
            #[trigger] after[i].outputs@[q].name@,
        ) by {
            assert(after[i] == entries[p + 1 + i]);
            assert(entries[p].outputs@[o].name@ == x.name@);
            assert(names_any(entries[p].outputs@, x.name@));
            if after[i].outputs@[q].name@ == x.name@ {
                assert(mentions(entries[p], entries[p + 1 + i].outputs@[q].name@));
            }
        }
        lemma_backprop_skips(after, seed);
        assert forall|i: int| 0 <= i < before.len() implies !names_any(
            #[trigger] before[i].inputs@,
            x.name@,
        ) by {
            assert(before[i] == entries[i]);
            if i < p {
                assert(!mentions(entries[i], x.name@));
            }
        }
        lemma_backprop_keeps(before, seed, x.name@);
    } else {
        assert forall|i: int, q: int|
            0 <= i < entries.len() && 0 <= q < entries[i].outputs@.len() implies !seed.contains_key(
            #[trigger] entries[i].outputs@[q].name@,
        ) by {}
        lemma_backprop_skips(entries, seed);
    }
    assert(lookup(result, x.name@) == Some(S::spec_one()));
    assert(gradients(tape@, x, seq![x]) =~= seq![Some(S::spec_one())]);
}

/// Gradients come back in the order asked for: asking for `[y, x]` instead
/// of `[x, y]` swaps the two results, whatever order the tape recorded them
/// in.
pub proof fn gradients_follow_request_order<S: Scalar>(
    tape: GradientTape<S>,
    loss: Variable<S>,
    x: Variable<S>,
    y: Variable<S>,
)
    ensures
        gradients(tape@, loss, seq![x, y]) == seq![
            gradients(tape@, loss, seq![y, x])[1],
            gradients(tape@, loss, seq![y, x])[0],
        ],
{
    assert(gradients(tape@, loss, seq![x, y]) =~= seq![
        gradients(tape@, loss, seq![y, x])[1],
        gradients(tape@, loss, seq![y, x])[0],
    ]);
}

/// Reading gradients changes nothing: `grad` borrows the tape immutably, and
/// what it returns is determined by the recorded entries, the loss and the
/// Variables asked for, so two calls on one tape state agree.
pub proof fn grad_is_repeatable<S: Scalar>(
    first: GradientTape<S>,
    second: GradientTape<S>,
    loss: Variable<S>,
    wanted: Seq<Variable<S>>,
    r1: Seq<Option<S>>,
    r2: Seq<Option<S>>,
)
    requires
        first@ == second@,
        r1 == gradients(first@, loss, wanted),
        r2 == gradients(second@, loss, wanted),
    ensures
        r1 == r2,
{
}

/// The adjoint accumulator of one gradient computation: distinct names, each
/// with its adjoint.
struct Adjoints<S> {
    names: Vec<String>,
    values: Vec<S>,
    map: Ghost<Map<Seq<char>, S>>,
}

impl<S: Scalar> View for Adjoints<S> {
    type V = Map<Seq<char>, S>;

    closed spec fn view(&self) -> Map<Seq<char>, S> {
        self.map@
    }
}

impl<S: Scalar> Adjoints<S> {
    closed spec fn wf(&self) -> bool {
        &&& self.names@.len() == self.values@.len()
        &&& forall|i: int, j: int|
            0 <= i < j < self.names@.len() ==> self.names@[i]@ != self.names@[j]@
        &&& forall|i: int|
            0 <= i < self.names@.len() ==> self.map@.contains_key(#[trigger] self.names@[i]@)
                && self.map@[self.names@[i]@] == self.values@[i]
        &&& forall|k: Seq<char>|
            self.map@.contains_key(k) ==> exists|i: int|
                0 <= i < self.names@.len() && #[trigger] self.names@[i]@ == k
    }

    fn new() -> (r: Adjoints<S>)
        ensures
            r.wf(),
            r@ == Map::<Seq<char>, S>::empty(),
    {
        Adjoints { names: Vec::new(), values: Vec::new(), map: Ghost(Map::empty()) }
    }

    /// Where `name` stands among the names, if it does.
    fn find(&self, name: &String) -> (r: Option<usize>)
        requires
            self.wf(),
        ensures
            match r {
                Some(i) => i < self.names@.len() && self.names@[i as int]@ == name@,
                None => !self@.contains_key(name@),
            },
    {
        let mut i: usize = 0;
        while i < self.names.len()
            invariant
                self.wf(),
                0 <= i <= self.names@.len(),
                forall|j: int| 0 <= j < i ==> self.names@[j]@ != name@,
            decreases self.names@.len() - i,
        {
            if self.names[i] == *name {
                return Some(i);
            }
            i = i + 1;
        }
        None
    }

    fn get(&self, name: &String) -> (r: Option<S>)
        requires
            self.wf(),
        ensures
            r == lookup(self@, name@),
    {
        match self.find(name) {
            Some(i) => Some(self.values[i]),
            None => None,
        }
    }

    fn merge(&mut self, name: &String, g: S)
        requires
            old(self).wf(),
        ensures
            final(self).wf(),
            final(self)@ == merge(old(self)@, name@, g),
    {
        match self.find(name) {
            Some(i) => {
                let sum = self.values[i].plus(g);
                self.values.set(i, sum);
                self.map = Ghost(self.map@.insert(name@, sum));
                assert forall|j: int|
                    0 <= j < self.names@.len() implies self.map@.contains_key(
                    #[trigger] self.names@[j]@,
                ) && self.map@[self.names@[j]@] == self.values@[j] by {
                    if j != i {
                        assert(old(self).names@[j]@ != old(self).names@[i as int]@);
                    }
                }
                assert forall|k: Seq<char>| self.map@.contains_key(k) implies exists|j: int|
                    0 <= j < self.names@.len() && #[trigger] self.names@[j]@ == k by {
                    if k != name@ {
                        assert(old(self).map@.contains_key(k));
                        let j = choose|j: int|
                            0 <= j < self.names@.len() && #[trigger] self.names@[j]@ == k;
                    } else {
                        assert(self.names@[i as int]@ == k);
                    }
                }
            },
            None => {
                let ghost before = self.names@;
                self.names.push(name.clone());
                self.values.push(g);
                self.map = Ghost(self.map@.insert(name@, g));
                assert(self.names@[before.len() as int]@ == name@);
                assert forall|j: int|
                    0 <= j < self.names@.len() implies self.map@.contains_key(
                    #[trigger] self.names@[j]@,
                ) && self.map@[self.names@[j]@] == self.values@[j] by {
                    if j < before.len() {
                        assert(self.names@[j] == before[j]);
                        assert(old(self).map@.contains_key(before[j]@));
                    }
                }
                assert forall|k: Seq<char>| self.map@.contains_key(k) implies exists|j: int|
                    0 <= j < self.names@.len() && #[trigger] self.names@[j]@ == k by {
                    if k != name@ {
                        assert(old(self).map@.contains_key(k));
                        let j = choose|j: int|
                            0 <= j < before.len() && #[trigger] before[j]@ == k;
                        assert(self.names@[j] == before[j]);
                    } else {
                        assert(self.names@[before.len() as int]@ == k);
                    }
                }
            },
        }
    }

    /// The adjoint of each of `vars`, in order.
    fn gather(&self, vars: &Vec<Variable<S>>) -> (r: Vec<Option<S>>)
        requires
            self.wf(),
        ensures
            r@ == lookup_all(vars@, self@),
    {
        let mut r: Vec<Option<S>> = Vec::new();
        let mut i: usize = 0;
        while i < vars.len()
            invariant
                self.wf(),
                0 <= i <= vars@.len(),
                r@ =~= lookup_all(vars@, self@).take(i as int),
            decreases vars@.len() - i,
        {
            r.push(self.get(&vars[i].name));
            i = i + 1;
        }
        r
    }
}

fn is_all_absent<S>(adjoints: &Vec<Option<S>>) -> (r: bool)
    ensures
        r == all_absent(adjoints@),
{
    let mut i: usize = 0;
    while i < adjoints.len()
        invariant
            0 <= i <= adjoints@.len(),
            forall|j: int| 0 <= j < i ==> adjoints@[j] is None,
        decreases adjoints@.len() - i,
    {
        if adjoints[i].is_some() {
            return false;
        }
        i = i + 1;
    }
    true
}

fn names_contain<S>(vars: &Vec<Variable<S>>, name: &String) -> (r: bool)
    ensures
        r == names_any(vars@, name@),
{
    let mut j: usize = 0;
    while j < vars.len()
        invariant
            0 <= j <= vars@.len(),
            forall|m: int| 0 <= m < j ==> vars@[m].name@ != name@,
        decreases vars@.len() - j,
    {
        if vars[j].name == *name {
            return true;
        }
        j = j + 1;
    }
    false
}

/// Whether the entries of `tape` introduce their outputs (see `names_fresh`):
/// this detects name collisions, which the engine itself does not look for.
pub fn names_are_fresh<S: Scalar>(tape: &GradientTape<S>) -> (r: bool)
    ensures
        r == names_fresh(tape@),
{
    let entries = tape.entries();
    let mut i: usize = 0;
    while i < entries.len()
        invariant
            0 <= i <= entries@.len(),
            entries@ == tape@,
            forall|i2: int, o: int|
                0 <= i2 < i && 0 <= o < entries@[i2].outputs@.len() ==> {
                    let name = #[trigger] entries@[i2].outputs@[o].name@;
                    &&& !names_any(entries@[i2].inputs@, name)
                    &&& forall|k: int| 0 <= k < i2 ==> !mentions(#[trigger] entries@[k], name)
                },
        decreases entries@.len() - i,
    {
        let entry = &entries[i];
        let mut o: usize = 0;
        while o < entry.outputs.len()
            invariant
                0 <= i < entries@.len(),
                entries@ == tape@,
                entry == entries@[i as int],
                0 <= o <= entry.outputs@.len(),
                forall|o2: int|
                    0 <= o2 < o ==> {
                        let name = #[trigger] entry.outputs@[o2].name@;
                        &&& !names_any(entry.inputs@, name)
                        &&& forall|k: int| 0 <= k < i ==> !mentions(#[trigger] entries@[k], name)
                    },
            decreases entry.outputs@.len() - o,
        {
            let name = &entry.outputs[o].name;
            if names_contain(&entry.inputs, name) {
                assert(names_any(entries@[i as int].inputs@, entries@[i as int].outputs@[o as int].name@));
                return false;
            }
            let mut k: usize = 0;
            while k < i
                invariant
                    0 <= k <= i < entries@.len(),
                    entries@ == tape@,
                    entry == entries@[i as int],
                    0 <= o < entry.outputs@.len(),
                    name@ == entry.outputs@[o as int].name@,
                    forall|k2: int| 0 <= k2 < k ==> !mentions(#[trigger] entries@[k2], name@),
                decreases i - k,
            {
                if names_contain(&entries[k].inputs, name) || names_contain(&entries[k].outputs, name) {
                    assert(mentions(entries@[k as int], entries@[i as int].outputs@[o as int].name@));
                    return false;
                }
                k = k + 1;
            }
            o = o + 1;
        }
        i = i + 1;
    }
    true
}

/// The partial derivative of `loss` with respect to each of `wanted`, in the
/// order of `wanted`: `None` for a Variable whose name the loss does not reach
/// through the entries recorded on `tape`.
///
/// The tape is walked once, from the last entry to the first. The walk starts
/// with the adjoint one for the loss; an entry none of whose outputs has an
/// adjoint yet is skipped, and each other entry adds the adjoints its local
/// gradient function gives to those of its inputs.
pub fn grad<S: Scalar>(tape: &GradientTape<S>, loss: &Variable<S>, wanted: &Vec<Variable<S>>) -> (r:
    Vec<Option<S>>)
    requires
        tape.wf(),
    ensures
        r@ == gradients(tape@, *loss, wanted@),
{
    let entries = tape.entries();
    let mut acc = Adjoints::new();
    acc.merge(&loss.name, S::one());
    assert(acc@ =~= map![loss.name@ => S::spec_one()]);
    let mut k: usize = entries.len();
    assert(entries@.take(k as int) =~= entries@);
    while k > 0
        invariant
            0 <= k <= entries@.len(),
            entries@ == tape@,
            tape.wf(),
            acc.wf(),
            backprop(entries@.take(k as int), acc@) == adjoints(tape@, loss.name@),
        decreases k,
    {
        let entry = &entries[k - 1];
        assert(entry.wf());
        let ghost before = acc@;
        let outputs = acc.gather(&entry.outputs);
        if !is_all_absent(&outputs) {
            let grads = entry.propagate.propagate(&outputs);
            let mut i: usize = 0;
            while i < entry.inputs.len()
                invariant
                    0 <= i <= entry.inputs@.len(),
                    entry.inputs@.len() == grads@.len(),
                    acc.wf(),
                    acc@ == merge_all(before, entry.inputs@.take(i as int), grads@),
                decreases entry.inputs@.len() - i,
            {
                acc.merge(&entry.inputs[i].name, grads[i]);
                assert(entry.inputs@.take(i + 1).drop_last() =~= entry.inputs@.take(i as int));
                i = i + 1;
            }
            assert(entry.inputs@.take(entry.inputs@.len() as int) =~= entry.inputs@);
        }
        assert(acc@ == step(entries@[k - 1], before));
        assert(entries@.take(k as int).drop_last() =~= entries@.take(k - 1));
        k = k - 1;
    }
    assert(entries@.take(0) =~= Seq::<TapeEntry<S>>::empty());
    acc.gather(wanted)
}

} // verus!
