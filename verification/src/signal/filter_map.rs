use super::state::State;
use super::traits::{is_run, Signal, REDRIVE_LIMIT};
use vstd::prelude::*;

verus! {

/// A signal that keeps the values of another signal for which a function
/// returns `Some`, and reports what the function returned.
///
/// Its values are wrapped in `Option`: the first value is reported even if
/// the function drops it, as `None`, so that a reader knows that nothing
/// has passed yet. Later values that are dropped are not reported.
pub struct FilterMap<A, B> {
    signal: A,
    callback: B,
    first: bool,
}

impl<A, B> FilterMap<A, B> {
    /// The signal whose values are filtered.
    pub closed spec fn source(&self) -> A {
        self.signal
    }

    /// The function that keeps or drops a value.
    pub closed spec fn filter(&self) -> B {
        self.callback
    }

    /// Nothing has been reported yet.
    pub closed spec fn is_first(&self) -> bool {
        self.first
    }

    pub(crate) fn new(signal: A, callback: B) -> (filtered: Self)
        ensures
            filtered.source() == signal,
            filtered.filter() == callback,
            filtered.is_first(),
    {
        FilterMap { signal, callback, first: true }
    }
}

impl<A, B, C> FilterMap<A, B> where A: Signal, B: FnMut(A::Item) -> Option<C> {
    /// The source reported a value that the function dropped, and this is
    /// not the first report: the value is swallowed.
    pub open spec fn swallows(&self, polled: State<A::Item>) -> bool {
        &&& !self.is_first()
        &&& polled matches State::Changed(value)
        &&& call_ensures(self.filter(), (value,), None::<C>)
    }

    /// What is made of one result `polled` of the source: `verdict` is what
    /// to report, or `None` where the value is swallowed, and `first` is
    /// whether the next report is still the first one.
    pub open spec fn offered(
        &self,
        polled: State<A::Item>,
        first: bool,
        verdict: Option<State<Option<C>>>,
    ) -> bool {
        match polled {
            State::NotChanged => verdict == Some(State::<Option<C>>::NotChanged) && first
                == self.is_first(),
            State::Changed(value) => exists|kept: Option<C>|
                {
                    &&& #[trigger] call_ensures(self.filter(), (value,), kept)
                    &&& !first
                    &&& verdict == if kept is Some || self.is_first() {
                        Some(State::Changed(kept))
                    } else {
                        None
                    }
                },
        }
    }

    /// Decides what to make of one result of the source.
    ///
    /// No change is reported as such. A value that the function keeps is
    /// reported. A value that it drops is reported as `None` if nothing was
    /// reported before, and is swallowed otherwise: the result is then
    /// `None`, and the source is to be polled again.
    pub fn offer(&mut self, polled: State<A::Item>) -> (verdict: Option<State<Option<C>>>)
        requires
            polled matches State::Changed(value) ==> call_requires(old(self).filter(), (value,)),
        ensures
            final(self).source() == old(self).source(),
            final(self).filter() == old(self).filter(),
            old(self).offered(polled, final(self).is_first(), verdict),
            verdict is None ==> old(self).swallows(polled),
            verdict == Some(State::Changed(None::<C>)) ==> old(self).is_first(),
            !old(self).is_first() ==> !final(self).is_first(),
    {
        match polled {
            State::Changed(value) => {
                let kept = (self.callback)(value);
                let was_first = self.first;
                self.first = false;
                match kept {
                    Some(value) => Some(State::Changed(Some(value))),
                    None => if was_first {
                        Some(State::Changed(None))
                    } else {
                        None
                    },
                }
            },
            State::NotChanged => Some(State::NotChanged),
        }
    }

    /// One poll: the source is polled `polls` times, its last result is
    /// `last`, and all results before it were swallowed.
    pub open spec fn redriven(&self, next: Self, last: State<A::Item>, polls: int) -> bool {
        exists|states: Seq<A>, results: Seq<State<A::Item>>|
            {
                &&& #[trigger] is_run(self.source(), states, results)
                &&& results.len() == polls
                &&& 1 <= polls <= REDRIVE_LIMIT
                &&& states.last() == next.source()
                &&& results.last() == last
                &&& forall|i: int| 0 <= i < polls - 1 ==> self.swallows(#[trigger] results[i])
            }
    }
}

/// There is one empty event at most, and it comes first. A poll reports
/// `None` only where nothing was reported before it, and once a poll has
/// reported a value, kept or not, no later report is the first one.
pub proof fn lemma_one_empty_event<A, B, C>(
    filtered: FilterMap<A, B>,
    next: FilterMap<A, B>,
    out: State<Option<C>>,
) where A: Signal, B: FnMut(A::Item) -> Option<C>
    requires
        filtered.polls_to(next, out),
    ensures
        out == State::Changed(None::<C>) ==> filtered.is_first(),
        out is Changed ==> !next.is_first(),
        !filtered.is_first() ==> !next.is_first(),
{
}

/// What a poll reports is what the function made of a value that the
/// source reported in that poll.
pub proof fn lemma_filter_map_reports_what_was_kept<A, B, C>(
    filtered: FilterMap<A, B>,
    next: FilterMap<A, B>,
    out: State<Option<C>>,
) where A: Signal, B: FnMut(A::Item) -> Option<C>
    requires
        filtered.polls_to(next, out),
        out is Changed,
    ensures
        exists|last: State<A::Item>, polls: int|
            {
                &&& #[trigger] filtered.redriven(next, last, polls)
                &&& last matches State::Changed(value)
                &&& call_ensures(filtered.filter(), (value,), out->Changed_0)
            },
{
}

impl<A, B, C> Signal for FilterMap<A, B> where A: Signal, B: FnMut(A::Item) -> Option<C> {
    type Item = Option<C>;

    open spec fn inv(&self) -> bool {
        &&& self.source().inv()
        &&& forall|value: A::Item|
            self.source().yields(value) ==> call_requires(self.filter(), (value,))
    }

    open spec fn yields(&self, value: Option<C>) -> bool {
        exists|origin: A::Item|
            self.source().yields(origin) && call_ensures(self.filter(), (origin,), value)
    }

    open spec fn polls_to(&self, next: Self, out: State<Option<C>>) -> bool {
        &&& next.filter() == self.filter()
        &&& exists|last: State<A::Item>, polls: int, verdict: Option<State<Option<C>>>|
            {
                &&& #[trigger] self.redriven(next, last, polls)
                &&& #[trigger] self.offered(last, next.is_first(), verdict)
                &&& match verdict {
                    Some(report) => out == report,
                    None => polls == REDRIVE_LIMIT && out is NotChanged,
                }
            }
    }

    /// Polls the source until it reports no change or a value that is not
    /// swallowed. After `REDRIVE_LIMIT` polls of the source that were all
    /// swallowed it reports no change.
    fn poll(&mut self) -> (out: State<Option<C>>) {
        let mut polls: u64 = 0;
        let ghost mut states: Seq<A> = Seq::empty();
        let ghost mut results: Seq<State<A::Item>> = Seq::empty();
        loop
            invariant
                polls < REDRIVE_LIMIT,
                results.len() == polls,
                is_run(old(self).source(), states, results),
                forall|i: int| 0 <= i < polls ==> old(self).swallows(#[trigger] results[i]),
                self.source() == if polls == 0 {
                    old(self).source()
                } else {
                    states.last()
                },
                self.filter() == old(self).filter(),
                self.is_first() == old(self).is_first(),
                old(self).inv(),
                self.source().inv(),
                forall|value: A::Item|
                    self.source().yields(value) ==> old(self).source().yields(value),
            decreases REDRIVE_LIMIT - polls,
        {
            let polled = self.signal.poll();
            polls = polls + 1;
            proof {
                states = states.push(self.source());
                results = results.push(polled);
                assert(is_run(old(self).source(), states, results));
            }
            let verdict = self.offer(polled);
            proof {
                assert(old(self).offered(polled, self.is_first(), verdict));
                assert(old(self).redriven(*self, polled, polls as int));
            }
            match verdict {
                Some(out) => {
                    return out;
                },
                None => {
                    if polls == REDRIVE_LIMIT {
                        return State::NotChanged;
                    }
                },
            }
        }
    }
}

} // verus!
