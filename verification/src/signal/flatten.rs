use super::state::State;
use super::traits::Signal;
use vstd::prelude::*;

verus! {

/// A signal of signals, seen as one signal: it follows the signal that the
/// outer signal reported last, and reports what that signal reports.
pub struct Flatten<A: Signal> {
    signal: A,
    inner: Option<A::Item>,
}

impl<A: Signal> Flatten<A> {
    /// The outer signal, which reports the signals to follow.
    pub closed spec fn outer(&self) -> A {
        self.signal
    }

    /// The signal that is followed at present.
    pub closed spec fn active(&self) -> Option<A::Item> {
        self.inner
    }

    pub(crate) fn new(signal: A) -> (flat: Self)
        ensures
            flat.outer() == signal,
            flat.active() is None,
    {
        Flatten { signal, inner: None }
    }
}

/// The signal to follow after a poll of the outer signal: the one just
/// reported, or else the one followed so far.
pub open spec fn switched<I>(active: Option<I>, polled: State<I>) -> Option<I> {
    match polled {
        State::Changed(inner) => Some(inner),
        State::NotChanged => active,
    }
}

impl<A> Flatten<A> where A: Signal, A::Item: Signal {
    /// The decision of one poll, given what the outer signal reported: the
    /// signal followed goes from `self.active()` to `active`, and `out` is
    /// reported.
    ///
    /// The signal to follow is polled once, and `out` is what that poll
    /// reports. Where there is none to follow, nothing is reported.
    pub open spec fn follows_to(
        &self,
        polled: State<A::Item>,
        active: Option<A::Item>,
        out: State<<A::Item as Signal>::Item>,
    ) -> bool {
        match switched(self.active(), polled) {
            Some(inner) => active matches Some(after) && inner.polls_to(after, out),
            None => active is None && out is NotChanged,
        }
    }

    /// Decides one poll from what the outer signal reported.
    ///
    /// A signal that the outer signal has just reported takes the place of
    /// the one followed so far. It is polled once, at once, and the result
    /// of that poll is reported, also where it is `NotChanged`: a switch
    /// does not force a report.
    pub fn follow(&mut self, polled: State<A::Item>) -> (out: State<<A::Item as Signal>::Item>)
        requires
            switched(old(self).active(), polled) matches Some(inner) ==> inner.inv(),
        ensures
            final(self).outer() == old(self).outer(),
            old(self).follows_to(polled, final(self).active(), out),
            final(self).active() matches Some(after) ==> after.inv(),
            switched(old(self).active(), polled) matches Some(inner) ==> {
                &&& final(self).active() matches Some(after)
                &&& forall|value: <A::Item as Signal>::Item|
                    after.yields(value) ==> inner.yields(value)
                &&& out matches State::Changed(value) ==> inner.yields(value)
            },
    {
        match polled {
            State::Changed(mut inner) => {
                let out = inner.poll();
                self.inner = Some(inner);
                out
            },
            State::NotChanged => match &mut self.inner {
                Some(inner) => inner.poll(),
                None => State::NotChanged,
            },
        }
    }
}

/// A switch does not force a report. Where the outer signal reports a
/// signal whose next poll can only report no change, the decision of that
/// tick reports no change. And where the outer signal reports nothing, a
/// value is reported only if there is a signal to follow and its poll
/// reports that value.
pub proof fn lemma_switch_does_not_force_a_report<A>(
    flat: Flatten<A>,
    polled: State<A::Item>,
    active: Option<A::Item>,
    out: State<<A::Item as Signal>::Item>,
) where A: Signal, A::Item: Signal
    requires
        flat.follows_to(polled, active, out),
    ensures
        polled matches State::Changed(inner) ==> {
            &&& active matches Some(after)
            &&& inner.polls_to(after, out)
            &&& (forall|after: A::Item, report: State<<A::Item as Signal>::Item>|
                inner.polls_to(after, report) ==> report is NotChanged) ==> out is NotChanged
        },
        polled is NotChanged && out is Changed ==> {
            &&& flat.active() matches Some(inner)
            &&& active matches Some(after)
            &&& inner.polls_to(after, out)
        },
{
}

impl<A> Signal for Flatten<A> where A: Signal, A::Item: Signal {
    type Item = <<A as Signal>::Item as Signal>::Item;

    open spec fn inv(&self) -> bool {
        &&& self.outer().inv()
        &&& self.active() matches Some(inner) ==> inner.inv()
        &&& forall|inner: A::Item| self.outer().yields(inner) ==> inner.inv()
    }

    open spec fn yields(&self, value: Self::Item) -> bool {
        ||| self.active() matches Some(inner) && inner.yields(value)
        ||| exists|inner: A::Item| self.outer().yields(inner) && inner.yields(value)
    }

    open spec fn polls_to(&self, next: Self, out: State<Self::Item>) -> bool {
        exists|polled: State<A::Item>|
            {
                &&& self.outer().polls_to(next.outer(), polled)
                &&& #[trigger] self.follows_to(polled, next.active(), out)
            }
    }

    /// Polls the outer signal, then the signal to follow.
    fn poll(&mut self) -> (out: State<Self::Item>) {
        let polled = self.signal.poll();
        let out = self.follow(polled);
        assert(old(self).follows_to(polled, self.active(), out));
        out
    }
}

} // verus!
