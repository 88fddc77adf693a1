//! State machines and the combinators that build larger ones from smaller.

use vstd::prelude::*;
use std::marker::PhantomData;

verus! {

/// A machine that takes an input, moves to its next state and gives an
/// output. Both are functions of the state before and the input.
pub trait StateMachine<I, O>: Sized {
    /// The output for `input` in this state.
    spec fn output(&self, input: I) -> O;

    /// The state after `input` in this state.
    spec fn successor(&self, input: I) -> Self;

    fn transition(&mut self, input: I) -> (output: O)
        ensures
            output == old(self).output(input),
            *final(self) == old(self).successor(input),
    ;
}

/// A value that can be put into one word of the network, or not.
pub trait SurfSerialize<WordType> {
    /// The word of the value, if it has one.
    spec fn serialized(&self) -> Option<WordType>;

    fn serialize(&self) -> (word: Option<WordType>)
        ensures
            word == self.serialized(),
    ;
}

/// A value that can be read back from one word of the network, or not.
pub trait SurfDeserialize<WordType>: Sized {
    /// The value of the word, if it has one.
    spec fn deserialized(word: WordType) -> Option<Self>;

    fn deserialize(word: WordType) -> (value: Option<Self>)
        ensures
            value == Self::deserialized(word),
    ;
}

/// The outputs of a machine on a row of inputs.
pub open spec fn run_outputs<I, O, SM: StateMachine<I, O>>(machine: SM, inputs: Seq<I>) -> Seq<O>
    decreases inputs.len(),
{
    if inputs.len() == 0 {
        Seq::empty()
    } else {
        seq![machine.output(inputs[0])] + run_outputs(
            machine.successor(inputs[0]),
            inputs.drop_first(),
        )
    }
}

/// The state of a machine after a row of inputs.
pub open spec fn run_state<I, O, SM: StateMachine<I, O>>(machine: SM, inputs: Seq<I>) -> SM
    decreases inputs.len(),
{
    if inputs.len() == 0 {
        machine
    } else {
        run_state::<I, O, SM>(machine.successor(inputs[0]), inputs.drop_first())
    }
}

/// Feeds the inputs to the machine one by one and collects its outputs.
pub fn test_run_statemachine<I, O, SM>(state_machine: &mut SM, inputs: Vec<I>) -> (outputs: Vec<O>)
    where SM: StateMachine<I, O>
    ensures
        outputs@ == run_outputs::<I, O, SM>(*old(state_machine), inputs@),
        *final(state_machine) == run_state::<I, O, SM>(*old(state_machine), inputs@),
{
    let mut inputs = inputs;
    let ghost all = inputs@;
    let ghost start = *state_machine;
    let mut outputs: Vec<O> = Vec::with_capacity(inputs.len());
    let mut rest: Vec<I> = Vec::with_capacity(inputs.len());
    while inputs.len() > 0
        invariant
            *state_machine == start,
            outputs@.len() == 0,
            rest@.len() + inputs@.len() == all.len(),
            forall|k: int| 0 <= k < inputs@.len() ==> inputs@[k] == all[k],
            forall|k: int| 0 <= k < rest@.len() ==> rest@[k] == all[all.len() - 1 - k],
        decreases inputs@.len(),
    {
        match inputs.pop() {
            Some(input) => {
                rest.push(input);
            },
            None => {},
        }
    }
    proof {
        assert(all.skip(0) =~= all);
        assert(outputs@ + run_outputs::<I, O, SM>(start, all) =~= run_outputs::<I, O, SM>(
            start,
            all,
        ));
    }
    while rest.len() > 0
        invariant
            outputs@.len() + rest@.len() == all.len(),
            forall|k: int| 0 <= k < rest@.len() ==> rest@[k] == all[all.len() - 1 - k],
            outputs@ + run_outputs::<I, O, SM>(*state_machine, all.skip(outputs@.len() as int))
                == run_outputs::<I, O, SM>(start, all),
            run_state::<I, O, SM>(*state_machine, all.skip(outputs@.len() as int)) == run_state::<
                I,
                O,
                SM,
            >(start, all),
        decreases rest@.len(),
    {
        let ghost done = outputs@;
        let ghost at = *state_machine;
        let ghost ahead = all.skip(done.len() as int);
        match rest.pop() {
            Some(input) => {
                let output = state_machine.transition(input);
                outputs.push(output);
                proof {
                    assert(ahead[0] == input);
                    assert(ahead.drop_first() =~= all.skip(outputs@.len() as int));
                    assert(outputs@ + run_outputs::<I, O, SM>(*state_machine, ahead.drop_first())
                        =~= done + run_outputs::<I, O, SM>(at, ahead));
                }
            },
            None => {},
        }
    }
    proof {
        assert(all.skip(all.len() as int) =~= Seq::<I>::empty());
        assert(outputs@ + Seq::<O>::empty() =~= outputs@);
    }
    outputs
}

/// The machine that hands its input on unchanged.
#[derive(Debug)]
pub struct UnitStateMachine<T> {
    _marker: PhantomData<T>,
}

impl<T> UnitStateMachine<T> {
    pub fn new() -> (machine: Self) {
        Self { _marker: PhantomData }
    }
}

impl<I> StateMachine<I, I> for UnitStateMachine<I> {
    open spec fn output(&self, input: I) -> I {
        input
    }

    open spec fn successor(&self, input: I) -> Self {
        *self
    }

    fn transition(&mut self, input: I) -> (output: I) {
        input
    }
}

/// Two machines in a row: the output of the left is the input of the right.
pub struct LinearComposition<SM1, I, B, SM2, O> where SM1: StateMachine<I, B>, SM2: StateMachine<B, O> {
    pub left: SM1,
    pub right: SM2,
    pub _marker: PhantomData<(I, B, O)>,
}

impl<SM1, I, B, SM2, O> LinearComposition<SM1, I, B, SM2, O> where
    SM1: StateMachine<I, B>,
    SM2: StateMachine<B, O>,
 {
    pub fn new(left: SM1, right: SM2) -> (machine: Self)
        ensures
            machine.left == left,
            machine.right == right,
    {
        Self { left, right, _marker: PhantomData }
    }
}

impl<SM1, I, B, SM2, O> StateMachine<I, O> for LinearComposition<SM1, I, B, SM2, O> where
    SM1: StateMachine<I, B>,
    SM2: StateMachine<B, O>,
 {
    open spec fn output(&self, input: I) -> O {
        self.right.output(self.left.output(input))
    }

    open spec fn successor(&self, input: I) -> Self {
        LinearComposition {
            left: self.left.successor(input),
            right: self.right.successor(self.left.output(input)),
            _marker: self._marker,
        }
    }

    fn transition(&mut self, input: I) -> (output: O) {
        let between = self.left.transition(input);
        self.right.transition(between)
    }
}

/// Two machines side by side, each on its half of a pair.
pub struct ParallelComposition<SM1, I1, O1, SM2, I2, O2> where
    SM1: StateMachine<I1, O1>,
    SM2: StateMachine<I2, O2>,
 {
    pub upper: SM1,
    pub lower: SM2,
    pub _marker: PhantomData<(I1, O1, I2, O2)>,
}

impl<SM1, I1, O1, SM2, I2, O2> ParallelComposition<SM1, I1, O1, SM2, I2, O2> where
    SM1: StateMachine<I1, O1>,
    SM2: StateMachine<I2, O2>,
 {
    pub fn new(upper: SM1, lower: SM2) -> (machine: Self)
        ensures
            machine.upper == upper,
            machine.lower == lower,
    {
        Self { upper, lower, _marker: PhantomData }
    }
}

impl<SM1, I1, O1, SM2, I2, O2> StateMachine<(I1, I2), (O1, O2)> for ParallelComposition<
    SM1,
    I1,
    O1,
    SM2,
    I2,
    O2,
> where SM1: StateMachine<I1, O1>, SM2: StateMachine<I2, O2> {
    open spec fn output(&self, input: (I1, I2)) -> (O1, O2) {
        (self.upper.output(input.0), self.lower.output(input.1))
    }

    open spec fn successor(&self, input: (I1, I2)) -> Self {
        ParallelComposition {
            upper: self.upper.successor(input.0),
            lower: self.lower.successor(input.1),
            _marker: self._marker,
        }
    }

    fn transition(&mut self, input: (I1, I2)) -> (output: (O1, O2)) {
        let o1 = self.upper.transition(input.0);
        let o2 = self.lower.transition(input.1);
        (o1, o2)
    }
}

/// The machine that swaps the halves of a pair.
#[derive(Debug)]
pub struct Swap<I1, I2> {
    _marker: PhantomData<(I1, I2)>,
}

impl<I1, I2> Swap<I1, I2> {
    pub fn new() -> (machine: Self) {
        Self { _marker: PhantomData }
    }
}

impl<I1, I2> StateMachine<(I1, I2), (I2, I1)> for Swap<I1, I2> {
    open spec fn output(&self, input: (I1, I2)) -> (I2, I1) {
        (input.1, input.0)
    }

    open spec fn successor(&self, input: (I1, I2)) -> Self {
        *self
    }

    fn transition(&mut self, input: (I1, I2)) -> (output: (I2, I1)) {
        (input.1, input.0)
    }
}

/// The machine that regroups three values between a flat triple and its
/// nested forms.
#[derive(Debug)]
pub struct Flatten3<I1, I2, I3> {
    _marker: PhantomData<(I1, I2, I3)>,
}

impl<I1, I2, I3> Flatten3<I1, I2, I3> {
    pub fn new() -> (machine: Self) {
        Self { _marker: PhantomData }
    }
}

impl<I1, I2, I3> StateMachine<((I1, I2), I3), (I1, I2, I3)> for Flatten3<I1, I2, I3> {
    open spec fn output(&self, input: ((I1, I2), I3)) -> (I1, I2, I3) {
        (input.0.0, input.0.1, input.1)
    }

    open spec fn successor(&self, input: ((I1, I2), I3)) -> Self {
        *self
    }

    fn transition(&mut self, input: ((I1, I2), I3)) -> (output: (I1, I2, I3)) {
        (input.0.0, input.0.1, input.1)
    }
}

impl<I1, I2, I3> StateMachine<(I1, I2, I3), ((I1, I2), I3)> for Flatten3<I1, I2, I3> {
    open spec fn output(&self, input: (I1, I2, I3)) -> ((I1, I2), I3) {
        ((input.0, input.1), input.2)
    }

    open spec fn successor(&self, input: (I1, I2, I3)) -> Self {
        *self
    }

    fn transition(&mut self, input: (I1, I2, I3)) -> (output: ((I1, I2), I3)) {
        ((input.0, input.1), input.2)
    }
}

impl<I1, I2, I3> StateMachine<(I1, (I2, I3)), (I1, I2, I3)> for Flatten3<I1, I2, I3> {
    open spec fn output(&self, input: (I1, (I2, I3))) -> (I1, I2, I3) {
        (input.0, input.1.0, input.1.1)
    }

    open spec fn successor(&self, input: (I1, (I2, I3))) -> Self {
        *self
    }

    fn transition(&mut self, input: (I1, (I2, I3))) -> (output: (I1, I2, I3)) {
        (input.0, input.1.0, input.1.1)
    }
}

impl<I1, I2, I3> StateMachine<(I1, I2, I3), (I1, (I2, I3))> for Flatten3<I1, I2, I3> {
    open spec fn output(&self, input: (I1, I2, I3)) -> (I1, (I2, I3)) {
        (input.0, (input.1, input.2))
    }

    open spec fn successor(&self, input: (I1, I2, I3)) -> Self {
        *self
    }

    fn transition(&mut self, input: (I1, I2, I3)) -> (output: (I1, (I2, I3))) {
        (input.0, (input.1, input.2))
    }
}

/// The machine that regroups four values between a flat quadruple and its
/// nested forms.
#[derive(Debug)]
pub struct Flatten4<I1, I2, I3, I4> {
    _marker: PhantomData<(I1, I2, I3, I4)>,
}

impl<I1, I2, I3, I4> Flatten4<I1, I2, I3, I4> {
    pub fn new() -> (machine: Self) {
        Self { _marker: PhantomData }
    }
}

impl<I1, I2, I3, I4> StateMachine<(((I1, I2), I3), I4), (I1, I2, I3, I4)> for Flatten4<I1, I2, I3, I4> {
    open spec fn output(&self, input: (((I1, I2), I3), I4)) -> (I1, I2, I3, I4) {
        (input.0.0.0, input.0.0.1, input.0.1, input.1)
    }

    open spec fn successor(&self, input: (((I1, I2), I3), I4)) -> Self {
        *self
    }

    fn transition(&mut self, input: (((I1, I2), I3), I4)) -> (output: (I1, I2, I3, I4)) {
        (input.0.0.0, input.0.0.1, input.0.1, input.1)
    }
}

impl<I1, I2, I3, I4> StateMachine<(I1, (I2, I3), I4), (I1, I2, I3, I4)> for Flatten4<I1, I2, I3, I4> {
    open spec fn output(&self, input: (I1, (I2, I3), I4)) -> (I1, I2, I3, I4) {
        (input.0, input.1.0, input.1.1, input.2)
    }

    open spec fn successor(&self, input: (I1, (I2, I3), I4)) -> Self {
        *self
    }

    fn transition(&mut self, input: (I1, (I2, I3), I4)) -> (output: (I1, I2, I3, I4)) {
        (input.0, input.1.0, input.1.1, input.2)
    }
}

impl<I1, I2, I3, I4> StateMachine<((I1, I2), (I3, I4)), (I1, I2, I3, I4)> for Flatten4<I1, I2, I3, I4> {
    open spec fn output(&self, input: ((I1, I2), (I3, I4))) -> (I1, I2, I3, I4) {
        (input.0.0, input.0.1, input.1.0, input.1.1)
    }

    open spec fn successor(&self, input: ((I1, I2), (I3, I4))) -> Self {
        *self
    }

    fn transition(&mut self, input: ((I1, I2), (I3, I4))) -> (output: (I1, I2, I3, I4)) {
        (input.0.0, input.0.1, input.1.0, input.1.1)
    }
}

impl<I1, I2, I3, I4> StateMachine<(I1, (I2, (I3, I4))), (I1, I2, I3, I4)> for Flatten4<I1, I2, I3, I4> {
    open spec fn output(&self, input: (I1, (I2, (I3, I4)))) -> (I1, I2, I3, I4) {
        (input.0, input.1.0, input.1.1.0, input.1.1.1)
    }

    open spec fn successor(&self, input: (I1, (I2, (I3, I4)))) -> Self {
        *self
    }

    fn transition(&mut self, input: (I1, (I2, (I3, I4)))) -> (output: (I1, I2, I3, I4)) {
        (input.0, input.1.0, input.1.1.0, input.1.1.1)
    }
}

impl<I1, I2, I3, I4> StateMachine<(I1, (I2, I3, I4)), (I1, I2, I3, I4)> for Flatten4<I1, I2, I3, I4> {
    open spec fn output(&self, input: (I1, (I2, I3, I4))) -> (I1, I2, I3, I4) {
        (input.0, input.1.0, input.1.1, input.1.2)
    }

    open spec fn successor(&self, input: (I1, (I2, I3, I4))) -> Self {
        *self
    }

    fn transition(&mut self, input: (I1, (I2, I3, I4))) -> (output: (I1, I2, I3, I4)) {
        (input.0, input.1.0, input.1.1, input.1.2)
    }
}

impl<I1, I2, I3, I4> StateMachine<((I1, I2, I3), I4), (I1, I2, I3, I4)> for Flatten4<I1, I2, I3, I4> {
    open spec fn output(&self, input: ((I1, I2, I3), I4)) -> (I1, I2, I3, I4) {
        (input.0.0, input.0.1, input.0.2, input.1)
    }

    open spec fn successor(&self, input: ((I1, I2, I3), I4)) -> Self {
        *self
    }

    fn transition(&mut self, input: ((I1, I2, I3), I4)) -> (output: (I1, I2, I3, I4)) {
        (input.0.0, input.0.1, input.0.2, input.1)
    }
}

impl<I1, I2, I3, I4> StateMachine<(I1, I2, I3, I4), (((I1, I2), I3), I4)> for Flatten4<I1, I2, I3, I4> {
    open spec fn output(&self, input: (I1, I2, I3, I4)) -> (((I1, I2), I3), I4) {
        (((input.0, input.1), input.2), input.3)
    }

    open spec fn successor(&self, input: (I1, I2, I3, I4)) -> Self {
        *self
    }

    fn transition(&mut self, input: (I1, I2, I3, I4)) -> (output: (((I1, I2), I3), I4)) {
        (((input.0, input.1), input.2), input.3)
    }
}

impl<I1, I2, I3, I4> StateMachine<(I1, I2, I3, I4), (I1, (I2, I3), I4)> for Flatten4<I1, I2, I3, I4> {
    open spec fn output(&self, input: (I1, I2, I3, I4)) -> (I1, (I2, I3), I4) {
        (input.0, (input.1, input.2), input.3)
    }

    open spec fn successor(&self, input: (I1, I2, I3, I4)) -> Self {
        *self
    }

    fn transition(&mut self, input: (I1, I2, I3, I4)) -> (output: (I1, (I2, I3), I4)) {
        (input.0, (input.1, input.2), input.3)
    }
}

impl<I1, I2, I3, I4> StateMachine<(I1, I2, I3, I4), ((I1, I2), (I3, I4))> for Flatten4<I1, I2, I3, I4> {
    open spec fn output(&self, input: (I1, I2, I3, I4)) -> ((I1, I2), (I3, I4)) {
        ((input.0, input.1), (input.2, input.3))
    }

    open spec fn successor(&self, input: (I1, I2, I3, I4)) -> Self {
        *self
    }

    fn transition(&mut self, input: (I1, I2, I3, I4)) -> (output: ((I1, I2), (I3, I4))) {
        ((input.0, input.1), (input.2, input.3))
    }
}

impl<I1, I2, I3, I4> StateMachine<(I1, I2, I3, I4), (I1, (I2, (I3, I4)))> for Flatten4<I1, I2, I3, I4> {
    open spec fn output(&self, input: (I1, I2, I3, I4)) -> (I1, (I2, (I3, I4))) {
        (input.0, (input.1, (input.2, input.3)))
    }

    open spec fn successor(&self, input: (I1, I2, I3, I4)) -> Self {
        *self
    }

    fn transition(&mut self, input: (I1, I2, I3, I4)) -> (output: (I1, (I2, (I3, I4)))) {
        (input.0, (input.1, (input.2, input.3)))
    }
}

impl<I1, I2, I3, I4> StateMachine<(I1, I2, I3, I4), (I1, (I2, I3, I4))> for Flatten4<I1, I2, I3, I4> {
    open spec fn output(&self, input: (I1, I2, I3, I4)) -> (I1, (I2, I3, I4)) {
        (input.0, (input.1, input.2, input.3))
    }

    open spec fn successor(&self, input: (I1, I2, I3, I4)) -> Self {
        *self
    }

    fn transition(&mut self, input: (I1, I2, I3, I4)) -> (output: (I1, (I2, I3, I4))) {
        (input.0, (input.1, input.2, input.3))
    }
}

impl<I1, I2, I3, I4> StateMachine<(I1, I2, I3, I4), ((I1, I2, I3), I4)> for Flatten4<I1, I2, I3, I4> {
    open spec fn output(&self, input: (I1, I2, I3, I4)) -> ((I1, I2, I3), I4) {
        ((input.0, input.1, input.2), input.3)
    }

    open spec fn successor(&self, input: (I1, I2, I3, I4)) -> Self {
        *self
    }

    fn transition(&mut self, input: (I1, I2, I3, I4)) -> (output: ((I1, I2, I3), I4)) {
        ((input.0, input.1, input.2), input.3)
    }
}

} // verus!
