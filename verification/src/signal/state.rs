use vstd::prelude::*;

verus! {

/// What a signal reports when it is polled.
#[derive(Debug, Clone, Copy, PartialEq, Eq)]
pub enum State<A> {
    /// The signal has a new value.
    Changed(A),
    /// Nothing is new since the previous poll.
    NotChanged,
}

impl<A> State<A> {
    /// Whether `out` is a possible result of applying `f` to the value this
    /// state carries, if it carries one.
    pub open spec fn mapped_by<B, F: FnOnce(A) -> B>(self, f: F, out: State<B>) -> bool {
        match self {
            State::Changed(value) => out matches State::Changed(image) && call_ensures(
                f,
                (value,),
                image,
            ),
            State::NotChanged => out is NotChanged,
        }
    }

    /// Applies `f` to the carried value and leaves `NotChanged` as it is.
    pub fn map<B, F>(self, f: F) -> (out: State<B>) where F: FnOnce(A) -> B
        requires
            self matches State::Changed(value) ==> call_requires(f, (value,)),
        ensures
            self.mapped_by(f, out),
    {
        match self {
            State::Changed(value) => State::Changed(f(value)),
            State::NotChanged => State::NotChanged,
        }
    }
}

} // verus!
