use super::state::State;
use super::traits::Signal;
use vstd::prelude::*;

verus! {

/// A signal that reports one value, once.
pub struct Always<A> {
    value: Option<A>,
}

impl<A> Always<A> {
    /// The value that has not been reported yet, if any.
    pub closed spec fn held(&self) -> Option<A> {
        self.value
    }
}

impl<A> Signal for Always<A> {
    type Item = A;

    open spec fn inv(&self) -> bool {
        true
    }

    open spec fn yields(&self, value: A) -> bool {
        self.held() == Some(value)
    }

    open spec fn polls_to(&self, next: Self, out: State<A>) -> bool {
        &&& next.held() is None
        &&& out == match self.held() {
            Some(value) => State::Changed(value),
            None => State::NotChanged,
        }
    }

    /// Reports the value, if it has not been reported yet, and gives it up.
    fn poll(&mut self) -> (out: State<A>) {
        match self.value.take() {
            Some(value) => State::Changed(value),
            None => State::NotChanged,
        }
    }
}

/// A signal that reports `value` at its first poll and nothing afterwards.
pub fn always<A>(value: A) -> (signal: Always<A>)
    ensures
        signal.held() == Some(value),
{
    Always { value: Some(value) }
}

} // verus!
