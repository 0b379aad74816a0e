use super::shared::Unconstrained;
use super::state::State;
use super::traits::{polled_from, Signal};
use std::rc::Rc;
use vstd::cell::invcell::InvCell;
use vstd::prelude::*;

verus! {

/// What one step of a stream gives to the task that drives it.
#[derive(Debug, Clone, Copy, PartialEq, Eq)]
pub enum Async<T> {
    /// The step produced a value.
    Ready(T),
    /// Nothing is ready: the task is to be suspended until it is woken.
    NotReady,
}

/// The stream step that stands for a poll result: a change is an item, no
/// change suspends the task. A signal never ends its stream.
pub open spec fn step_of<T>(polled: State<T>) -> Async<Option<T>> {
    match polled {
        State::Changed(value) => Async::Ready(Some(value)),
        State::NotChanged => Async::NotReady,
    }
}

/// The cell that holds a cancellation flag, shared by a handle and the
/// stream that it stops.
pub type Flag = Rc<InvCell<bool, Unconstrained>>;

/// A signal seen as a stream of its changes.
pub struct SignalStream<A> {
    signal: A,
}

impl<A> SignalStream<A> {
    /// The signal that feeds the stream.
    pub closed spec fn source(&self) -> A {
        self.signal
    }

    pub(crate) fn new(signal: A) -> (stream: Self)
        ensures
            stream.source() == signal,
    {
        SignalStream { signal }
    }
}

impl<A: Signal> SignalStream<A> {
    /// One step of the stream can take it from `self` to `next` and give `step`.
    pub open spec fn steps_to(&self, next: Self, step: Async<Option<A::Item>>) -> bool {
        exists|polled: State<A::Item>|
            self.source().polls_to(next.source(), polled) && step == step_of(polled)
    }

    /// Polls the signal once: a change is the next item of the stream, no
    /// change means that nothing is ready yet. The stream never ends.
    pub fn poll_next(&mut self) -> (step: Async<Option<A::Item>>)
        requires
            old(self).source().inv(),
        ensures
            final(self).source().inv(),
            old(self).steps_to(*final(self), step),
            step != Async::<Option<A::Item>>::Ready(None),
            step matches Async::Ready(Some(value)) ==> old(self).source().yields(value),
            forall|value: A::Item|
                final(self).source().yields(value) ==> old(self).source().yields(value),
    {
        let polled = self.signal.poll();
        let step = match polled {
            State::Changed(value) => Async::Ready(Some(value)),
            State::NotChanged => Async::NotReady,
        };
        assert(old(self).source().polls_to(self.source(), polled) && step == step_of(polled));
        step
    }
}

/// The handle that ends a running stream.
#[must_use]
pub struct DropHandle {
    done: Flag,
}

impl DropHandle {
    /// The cell that holds the cancellation flag.
    pub closed spec fn flag(&self) -> Flag {
        self.done
    }

    /// Sets the cancellation flag. The guarded stream reports its end from
    /// its next step on. The handle is used up.
    pub fn stop(self) {
        self.done.set(true);
    }
}

/// A stream that ends as soon as its handle has been stopped.
pub struct DropStream<A> {
    done: Flag,
    stream: SignalStream<A>,
}

impl<A> DropStream<A> {
    /// The stream that is guarded.
    pub closed spec fn guarded(&self) -> SignalStream<A> {
        self.stream
    }

    /// The cell that holds the cancellation flag.
    pub closed spec fn flag(&self) -> Flag {
        self.done
    }
}

impl<A: Signal> DropStream<A> {
    /// One step of the guarded stream, for the value `done` of the
    /// cancellation flag, can take it from `self` to `next` and give `step`.
    pub open spec fn steps_to(&self, done: bool, next: Self, step: Async<Option<A::Item>>) -> bool {
        &&& next.flag() == self.flag()
        &&& if done {
            next.guarded() == self.guarded() && step == Async::<Option<A::Item>>::Ready(None)
        } else {
            self.guarded().steps_to(next.guarded(), step)
        }
    }

    /// `states` and `steps` record successive steps of a stream that is
    /// `self` at first, all of them taken with the cancellation flag set:
    /// the step numbered `i` leaves the stream `states[i]` and gives
    /// `steps[i]`.
    pub open spec fn is_stopped_run(
        &self,
        states: Seq<Self>,
        steps: Seq<Async<Option<A::Item>>>,
    ) -> bool {
        &&& states.len() == steps.len()
        &&& forall|i: int|
            0 <= i < steps.len() ==> polled_from(*self, states, i).steps_to(
                true,
                states[i],
                #[trigger] steps[i],
            )
    }

    /// One step of the stream, given the value of the cancellation flag.
    ///
    /// With the flag set the wrapped stream is not polled and the stream has
    /// ended. Otherwise the step is that of the wrapped stream.
    pub fn advance(&mut self, done: bool) -> (step: Async<Option<A::Item>>)
        requires
            old(self).guarded().source().inv(),
        ensures
            final(self).guarded().source().inv(),
            old(self).steps_to(done, *final(self), step),
            done ==> *final(self) == *old(self) && step == Async::<Option<A::Item>>::Ready(None),
    {
        if done {
            Async::Ready(None)
        } else {
            self.stream.poll_next()
        }
    }

    /// Reads the cancellation flag, then takes one step.
    pub fn poll_next(&mut self) -> (step: Async<Option<A::Item>>)
        requires
            old(self).guarded().source().inv(),
        ensures
            final(self).guarded().source().inv(),
            exists|done: bool| old(self).steps_to(done, *final(self), step),
    {
        let done = self.done.get();
        self.advance(done)
    }
}

/// The step numbered `i` of a run with the flag set reports the end of
/// the stream and leaves the wrapped stream as it was at the start.
proof fn lemma_stopped_step<A: Signal>(
    stream: DropStream<A>,
    states: Seq<DropStream<A>>,
    steps: Seq<Async<Option<A::Item>>>,
    i: int,
)
    requires
        stream.is_stopped_run(states, steps),
        0 <= i < steps.len(),
    ensures
        steps[i] == Async::<Option<A::Item>>::Ready(None),
        states[i].guarded() == stream.guarded(),
        states[i].flag() == stream.flag(),
    decreases i,
{
    if i > 0 {
        lemma_stopped_step(stream, states, steps, i - 1);
    }
}

/// Stopping is final. With the cancellation flag set, every step of the
/// guarded stream, however many are taken, reports the end of the stream,
/// whatever the wrapped stream would produce, and the wrapped stream is not
/// polled.
pub proof fn lemma_stop_is_final<A: Signal>(
    stream: DropStream<A>,
    states: Seq<DropStream<A>>,
    steps: Seq<Async<Option<A::Item>>>,
)
    requires
        stream.is_stopped_run(states, steps),
    ensures
        forall|i: int|
            0 <= i < steps.len() ==> #[trigger] steps[i] == Async::<Option<A::Item>>::Ready(None),
        forall|i: int| 0 <= i < states.len() ==> (#[trigger] states[i]).guarded() == stream.guarded(),
{
    assert forall|i: int| 0 <= i < steps.len() implies #[trigger] steps[i] == Async::<
        Option<A::Item>,
    >::Ready(None) by {
        lemma_stopped_step(stream, states, steps, i);
    }
    assert forall|i: int| 0 <= i < states.len() implies (#[trigger] states[i]).guarded()
        == stream.guarded() by {
        lemma_stopped_step(stream, states, steps, i);
    }
}

/// Guards `stream` with a cancellation flag, initially not set, and returns
/// the handle that sets it. The handle and the stream share the flag.
pub fn drop_handle<A: Signal>(stream: SignalStream<A>) -> (pair: (DropHandle, DropStream<A>))
    ensures
        pair.1.guarded() == stream,
        pair.0.flag() == pair.1.flag(),
{
    let done = Rc::new(InvCell::new(false, Ghost(Unconstrained)));
    let drop_handle = DropHandle { done: done.clone() };
    let drop_stream = DropStream { done, stream };
    (drop_handle, drop_stream)
}

} // verus!
