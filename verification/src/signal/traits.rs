use super::filter_map::FilterMap;
use super::flatten::Flatten;
use super::map::Mapped;
use super::map2::Map2;
use super::map_dedupe::MapDedupe;
use super::state::State;
use super::stream::SignalStream;
use vstd::prelude::*;

verus! {

/// A value that can be polled for changes.
///
/// A signal is a state machine. Its three specification functions describe
/// it: `inv` is what must hold of it before it is polled, `polls_to` relates
/// the signal before a poll to the signal after it and to what the poll
/// reported, and `yields` bounds the values that the signal may ever report.
/// A signal that defines none of them promises nothing about its polls.
pub trait Signal: Sized {
    type Item;

    /// The signal is in a state in which it can be polled.
    open spec fn inv(&self) -> bool {
        true
    }

    /// The signal may, now or after any number of polls, report `value`.
    open spec fn yields(&self, value: Self::Item) -> bool {
        true
    }

    /// One poll may take the signal from `self` to `next` and report `out`.
    open spec fn polls_to(&self, next: Self, out: State<Self::Item>) -> bool {
        true
    }

    /// Asks the signal whether it has changed since the previous poll.
    fn poll(&mut self) -> (out: State<Self::Item>)
        requires
            old(self).inv(),
        ensures
            final(self).inv(),
            old(self).polls_to(*final(self), out),
            out matches State::Changed(value) ==> old(self).yields(value),
            forall|value: Self::Item| final(self).yields(value) ==> old(self).yields(value),
    ;
}

/// The most polls of its source that a combinator makes within one poll of
/// its own. A combinator that swallows a value polls its source again at
/// once; after this many polls it reports `NotChanged` instead.
pub const REDRIVE_LIMIT: u64 = 0xffff_ffff_ffff_ffff;

/// The signal that the poll numbered `i` of a run finds: the start of the
/// run, or what the poll before left.
pub open spec fn polled_from<S>(start: S, states: Seq<S>, i: int) -> S {
    if i == 0 {
        start
    } else {
        states[i - 1]
    }
}

/// `states` and `results` record successive polls of a signal that is
/// `start` at first: the poll numbered `i` leaves the signal `states[i]` and
/// reports `results[i]`.
pub open spec fn is_run<S: Signal>(start: S, states: Seq<S>, results: Seq<State<S::Item>>) -> bool {
    &&& states.len() == results.len()
    &&& forall|i: int|
        0 <= i < results.len() ==> polled_from(start, states, i).polls_to(
            states[i],
            #[trigger] results[i],
        )
}

/// The combinators, available on every signal.
pub trait SignalExt: Signal {
    /// The stream of this signal's changes.
    fn to_stream(self) -> (stream: SignalStream<Self>)
        ensures
            stream.source() == self,
    {
        SignalStream::new(self)
    }

    /// A signal that reports `callback(value)` whenever this one reports `value`.
    fn map<A, B>(self, callback: A) -> (mapped: Mapped<Self, A>) where A: FnMut(Self::Item) -> B
        ensures
            mapped.source() == self,
            mapped.transform() == callback,
    {
        Mapped::new(self, callback)
    }

    /// A signal that reports `callback(&value)` whenever this one reports a
    /// `value` that differs from the one before it.
    fn map_dedupe<A, B>(self, callback: A) -> (deduped: MapDedupe<Self, A>) where
        A: FnMut(&Self::Item) -> B,

        ensures
            deduped.source() == self,
            deduped.transform() == callback,
            deduped.previous() is None,
    {
        MapDedupe::new(self, callback)
    }

    /// A signal that reports what `callback` keeps of this signal's values.
    fn filter_map<A, B>(self, callback: A) -> (filtered: FilterMap<Self, A>) where
        A: FnMut(Self::Item) -> Option<B>,

        ensures
            filtered.source() == self,
            filtered.filter() == callback,
            filtered.is_first(),
    {
        FilterMap::new(self, callback)
    }

    /// The signal that follows the signal reported last by this signal.
    fn flatten(self) -> (flat: Flatten<Self>) where Self::Item: Signal
        ensures
            flat.outer() == self,
            flat.active() is None,
    {
        Flatten::new(self)
    }

    /// The signal that follows the signal which `callback` makes of the
    /// value reported last by this signal.
    fn switch<A, B>(self, callback: A) -> (flat: Flatten<Mapped<Self, A>>) where
        A: FnMut(Self::Item) -> B,
        B: Signal,

        ensures
            flat.outer().source() == self,
            flat.outer().transform() == callback,
            flat.active() is None,
    {
        Flatten::new(Mapped::new(self, callback))
    }

    /// A signal that combines the values of this signal and of `other`. It
    /// reports whenever one of the two has changed and both have had a
    /// value.
    fn map2<A, B, C>(self, other: A, callback: B) -> (combined: Map2<Self, A, B>) where
        A: Signal,
        B: FnMut(&mut Self::Item, &mut A::Item) -> C,

        ensures
            combined.first() == self,
            combined.second() == other,
            combined.combiner() == callback,
            combined.left_cache() is None,
            combined.right_cache() is None,
    {
        Map2::new(self, other, callback)
    }

    /// This signal, as a mutable borrow.
    fn as_mut(&mut self) -> (borrowed: &mut Self)
        ensures
            *borrowed == *old(self),
            *final(self) == *final(borrowed),
    {
        self
    }
}

impl<S: Signal> SignalExt for S {

}

} // verus!
