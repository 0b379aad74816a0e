use super::state::State;
use super::traits::Signal;
use vstd::prelude::*;

verus! {

/// A signal that applies a function to every value of another signal.
pub struct Mapped<A, B> {
    signal: A,
    callback: B,
}

impl<A, B> Mapped<A, B> {
    /// The signal whose values are transformed.
    pub closed spec fn source(&self) -> A {
        self.signal
    }

    /// The function applied to each value.
    pub closed spec fn transform(&self) -> B {
        self.callback
    }

    pub(crate) fn new(signal: A, callback: B) -> (mapped: Self)
        ensures
            mapped.source() == signal,
            mapped.transform() == callback,
    {
        Mapped { signal, callback }
    }
}

impl<A, B, C> Mapped<A, B> where A: Signal, B: FnMut(A::Item) -> C {
    /// Turns what the source reported into what this signal reports.
    ///
    /// A source that has not changed gives `NotChanged`, whatever the
    /// function is.
    pub fn emit(&mut self, polled: State<A::Item>) -> (out: State<C>)
        requires
            polled matches State::Changed(value) ==> call_requires(old(self).transform(), (value,)),
        ensures
            *final(self) == *old(self),
            polled.mapped_by(old(self).transform(), out),
            polled is NotChanged ==> out is NotChanged,
    {
        match polled {
            State::Changed(value) => State::Changed((self.callback)(value)),
            State::NotChanged => State::NotChanged,
        }
    }
}

/// A mapped signal reports a change only in a poll in which its source
/// reports one: where the source reports no change, so does the mapped
/// signal, whatever the function is.
pub proof fn lemma_map_passes_no_change<A, B, C>(
    mapped: Mapped<A, B>,
    next: Mapped<A, B>,
    out: State<C>,
) where A: Signal, B: FnMut(A::Item) -> C
    requires
        mapped.polls_to(next, out),
    ensures
        out is Changed ==> exists|value: A::Item|
            mapped.source().polls_to(next.source(), State::Changed(value)),
        out is NotChanged ==> mapped.source().polls_to(next.source(), State::NotChanged),
{
}

impl<A, B, C> Signal for Mapped<A, B> where A: Signal, B: FnMut(A::Item) -> C {
    type Item = C;

    open spec fn inv(&self) -> bool {
        &&& self.source().inv()
        &&& forall|value: A::Item|
            self.source().yields(value) ==> call_requires(self.transform(), (value,))
    }

    open spec fn yields(&self, value: C) -> bool {
        exists|origin: A::Item|
            self.source().yields(origin) && call_ensures(self.transform(), (origin,), value)
    }

    open spec fn polls_to(&self, next: Self, out: State<C>) -> bool {
        &&& next.transform() == self.transform()
        &&& exists|polled: State<A::Item>|
            self.source().polls_to(next.source(), polled) && polled.mapped_by(
                self.transform(),
                out,
            )
    }

    /// Polls the source once and reports what `emit` makes of the result.
    fn poll(&mut self) -> (out: State<C>) {
        let polled = self.signal.poll();
        self.emit(polled)
    }
}

} // verus!
