//! Components: units of computation that know how much work they are and
//! whether they can be split in two.

use vstd::prelude::*;
use vstd::std_specs::ops::MulSpec;

verus! {

/// A unit of computation.
pub trait Component: Sized {
    type Input;

    type Output;

    type Intermediate;

    /// The first part, where the component can be split.
    type Left;

    /// The second part, where the component can be split.
    type Right;

    /// The inputs that the component can compute on.
    spec fn accepts(&self, input: Self::Input) -> bool;

    /// What the component computes.
    spec fn result(&self, input: Self::Input) -> Self::Output;

    /// The amount of work of one computation.
    fn work(&self) -> usize;

    fn compute(&mut self, input: Self::Input) -> (output: Self::Output)
        requires
            old(self).accepts(input),
        ensures
            output == old(self).result(input),
    ;

    /// The two parts of the component, if it has any.
    fn split(&self) -> Option<(Self::Left, Self::Right)>;
}

/// The component that does not exist: what an indivisible component would
/// split into. No value of it can be made.
pub enum Never {
    Impossible(core::convert::Infallible),
}

impl Component for Never {
    type Input = ();

    type Output = ();

    type Intermediate = ();

    type Left = Never;

    type Right = Never;

    open spec fn accepts(&self, input: ()) -> bool {
        true
    }

    open spec fn result(&self, input: ()) -> () {
        ()
    }

    fn work(&self) -> (work: usize)
        ensures
            work == 0,
    {
        0
    }

    fn compute(&mut self, input: ()) -> (output: ()) {
        ()
    }

    fn split(&self) -> (parts: Option<(Never, Never)>)
        ensures
            parts is None,
    {
        None
    }
}

/// Multiplication by a fixed factor.
pub struct Multiply<T>(pub T);

impl<T> Component for Multiply<T> where T: core::ops::Mul<T, Output = T> + Copy {
    type Input = T;

    type Output = T;

    type Intermediate = ();

    type Left = Never;

    type Right = Never;

    /// The product must be one that the factor's type can form.
    open spec fn accepts(&self, input: T) -> bool {
        T::obeys_mul_spec() && input.mul_req(self.0)
    }

    open spec fn result(&self, input: T) -> T {
        input.mul_spec(self.0)
    }

    fn work(&self) -> (work: usize)
        ensures
            work == 1,
    {
        1
    }

    fn compute(&mut self, input: T) -> (output: T)
        ensures
            final(self).0 == old(self).0,
    {
        input * self.0
    }

    fn split(&self) -> (parts: Option<(Never, Never)>)
        ensures
            parts is None,
    {
        None
    }
}

} // verus!
