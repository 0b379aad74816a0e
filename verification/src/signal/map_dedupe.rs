use super::state::State;
use super::traits::{is_run, Signal, REDRIVE_LIMIT};
use vstd::prelude::*;
use vstd::std_specs::cmp::PartialEqSpec;

verus! {

/// Whether a comparison of `value` with the remembered value may find them
/// different, so that `value` counts as new. With nothing remembered every
/// value is new. Where the `==` of the item type is known to decide its
/// equality, `differs` is exactly that the two are not equal; of any other
/// `==` nothing is known, and either answer may come.
pub open spec fn told_apart<T: PartialEq>(cached: Option<T>, value: T, differs: bool) -> bool {
    match cached {
        Some(previous) => T::obeys_eq_spec() ==> differs == !previous.eq_spec(&value),
        None => differs,
    }
}

/// A signal that applies a function to the values of another signal, and
/// passes over a value that equals the one before it.
pub struct MapDedupe<A: Signal, B> {
    old_value: Option<A::Item>,
    signal: A,
    callback: B,
}

impl<A: Signal, B> MapDedupe<A, B> {
    /// The signal whose values are compared and transformed.
    pub closed spec fn source(&self) -> A {
        self.signal
    }

    /// The function applied to each new value.
    pub closed spec fn transform(&self) -> B {
        self.callback
    }

    /// The last value of the source that was not passed over.
    pub closed spec fn previous(&self) -> Option<A::Item> {
        self.old_value
    }

    pub(crate) fn new(signal: A, callback: B) -> (deduped: Self)
        ensures
            deduped.source() == signal,
            deduped.transform() == callback,
            deduped.previous() is None,
    {
        MapDedupe { old_value: None, signal, callback }
    }
}

impl<A, B, C> MapDedupe<A, B> where A: Signal, A::Item: PartialEq, B: FnMut(&A::Item) -> C {
    /// The source reported a value that may compare equal to the remembered
    /// one: the value is swallowed.
    pub open spec fn swallows(&self, polled: State<A::Item>) -> bool {
        &&& polled matches State::Changed(value)
        &&& told_apart(self.previous(), value, false)
    }

    /// What is made of one result `polled` of the source: `verdict` is what
    /// to report, or `None` where the value is swallowed, and `previous` is
    /// the value remembered afterwards.
    pub open spec fn offered(
        &self,
        polled: State<A::Item>,
        previous: Option<A::Item>,
        verdict: Option<State<C>>,
    ) -> bool {
        match polled {
            State::NotChanged => verdict == Some(State::<C>::NotChanged) && previous
                == self.previous(),
            State::Changed(value) => {
                ||| {
                    &&& told_apart(self.previous(), value, false)
                    &&& verdict is None
                    &&& previous == self.previous()
                }
                ||| {
                    &&& told_apart(self.previous(), value, true)
                    &&& previous == Some(value)
                    &&& exists|image: C|
                        {
                            &&& #[trigger] call_ensures(self.transform(), (&value,), image)
                            &&& verdict == Some(State::Changed(image))
                        }
                }
            },
        }
    }

    /// Decides what to make of one result of the source.
    ///
    /// No change is reported as such. A value that differs from the
    /// remembered one, or any value where none is remembered, is remembered
    /// in its place, and the function's result for it is reported. A value
    /// that equals the remembered one is swallowed: the result is then
    /// `None`, and the source is to be polled again.
    pub fn offer(&mut self, polled: State<A::Item>) -> (verdict: Option<State<C>>)
        requires
            polled matches State::Changed(value) ==> call_requires(
                old(self).transform(),
                (&value,),
            ),
        ensures
            final(self).source() == old(self).source(),
            final(self).transform() == old(self).transform(),
            old(self).offered(polled, final(self).previous(), verdict),
            verdict is None ==> old(self).swallows(polled),
    {
        match polled {
            State::Changed(value) => {
                let has_changed = match &self.old_value {
                    Some(old_value) => *old_value != value,
                    None => true,
                };
                if has_changed {
                    let output = (self.callback)(&value);
                    self.old_value = Some(value);
                    Some(State::Changed(output))
                } else {
                    None
                }
            },
            State::NotChanged => Some(State::NotChanged),
        }
    }

    /// One poll: the source is polled `polls` times, its last result is
    /// `last`, and all results before it were swallowed.
    pub open spec fn redriven(&self, next: Self, last: State<A::Item>, polls: int) -> bool {
        exists|states: Seq<A>, results: Seq<State<A::Item>>|
            {
                &&& #[trigger] is_run(self.source(), states, results)
                &&& results.len() == polls
                &&& 1 <= polls <= REDRIVE_LIMIT
                &&& states.last() == next.source()
                &&& results.last() == last
                &&& forall|i: int| 0 <= i < polls - 1 ==> self.swallows(#[trigger] results[i])
            }
    }
}

/// Equal repeats are suppressed. A poll reports a value only for a value
/// of the source that a comparison with the value remembered before may
/// tell apart from it, which it remembers from then on. A poll that
/// reports nothing leaves the remembered value as it is.
pub proof fn lemma_dedupe_reports_only_new_values<A, B, C>(
    deduped: MapDedupe<A, B>,
    next: MapDedupe<A, B>,
    out: State<C>,
) where A: Signal, A::Item: PartialEq, B: FnMut(&A::Item) -> C
    requires
        deduped.polls_to(next, out),
    ensures
        out is Changed ==> {
            &&& next.previous() matches Some(value)
            &&& told_apart(deduped.previous(), value, true)
            &&& call_ensures(deduped.transform(), (&value,), out->Changed_0)
        },
        out is NotChanged ==> next.previous() == deduped.previous(),
{
}

impl<A, B, C> Signal for MapDedupe<A, B> where
    A: Signal,
    A::Item: PartialEq,
    B: FnMut(&A::Item) -> C,
 {
    type Item = C;

    open spec fn inv(&self) -> bool {
        &&& self.source().inv()
        &&& forall|value: A::Item|
            self.source().yields(value) ==> call_requires(self.transform(), (&value,))
    }

    open spec fn yields(&self, value: C) -> bool {
        exists|origin: A::Item|
            self.source().yields(origin) && call_ensures(self.transform(), (&origin,), value)
    }

    open spec fn polls_to(&self, next: Self, out: State<C>) -> bool {
        &&& next.transform() == self.transform()
        &&& exists|last: State<A::Item>, polls: int, verdict: Option<State<C>>|
            {
                &&& #[trigger] self.redriven(next, last, polls)
                &&& #[trigger] self.offered(last, next.previous(), verdict)
                &&& match verdict {
                    Some(report) => out == report,
                    None => polls == REDRIVE_LIMIT && out is NotChanged,
                }
            }
    }

    /// Polls the source until it reports no change or a value that is not
    /// swallowed. After `REDRIVE_LIMIT` polls of the source that were all
    /// swallowed it reports no change.
    fn poll(&mut self) -> (out: State<C>) {
        let mut polls: u64 = 0;
        let ghost mut states: Seq<A> = Seq::empty();
        let ghost mut results: Seq<State<A::Item>> = Seq::empty();
        loop
            invariant
                polls < REDRIVE_LIMIT,
                results.len() == polls,
                is_run(old(self).source(), states, results),
                forall|i: int| 0 <= i < polls ==> old(self).swallows(#[trigger] results[i]),
                self.source() == if polls == 0 {
                    old(self).source()
                } else {
                    states.last()
                },
                self.transform() == old(self).transform(),
                self.previous() == old(self).previous(),
                old(self).inv(),
                self.source().inv(),
                forall|value: A::Item|
                    self.source().yields(value) ==> old(self).source().yields(value),
            decreases REDRIVE_LIMIT - polls,
        {
            let polled = self.signal.poll();
            polls = polls + 1;
            proof {
                states = states.push(self.source());
                results = results.push(polled);
                assert(is_run(old(self).source(), states, results));
            }
            let verdict = self.offer(polled);
            proof {
                assert(old(self).offered(polled, self.previous(), verdict));
                assert(old(self).redriven(*self, polled, polls as int));
            }
            match verdict {
                Some(out) => {
                    return out;
                },
                None => {
                    if polls == REDRIVE_LIMIT {
                        return State::NotChanged;
                    }
                },
            }
        }
    }
}

} // verus!
