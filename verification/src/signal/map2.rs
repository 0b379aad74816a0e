use super::state::State;
use super::traits::{polled_from, Signal};
use vstd::prelude::*;

verus! {

/// The value that one side of a pair has to offer after a poll: the value
/// just reported, or else the value remembered from an earlier poll.
pub open spec fn latest<T>(cached: Option<T>, polled: State<T>) -> Option<T> {
    match polled {
        State::Changed(value) => Some(value),
        State::NotChanged => cached,
    }
}

/// Whether a poll combines its two sides: at least one side has changed and
/// both sides have a value to offer.
pub open spec fn pairs_up<L, R>(
    left: Option<L>,
    right: Option<R>,
    polled_left: State<L>,
    polled_right: State<R>,
) -> bool {
    &&& polled_left is Changed || polled_right is Changed
    &&& latest(left, polled_left) is Some
    &&& latest(right, polled_right) is Some
}

/// Whether a call of `f` on `left` and `right` may return the value that
/// `out` carries.
pub open spec fn combined_by<L, R, D, F: FnMut(&mut L, &mut R) -> D>(
    f: F,
    left: L,
    right: R,
    out: State<D>,
) -> bool {
    exists|a: &mut L, b: &mut R, image: D|
        {
            &&& *a == left
            &&& *b == right
            &&& #[trigger] call_ensures(f, (a, b), image)
            &&& out == State::Changed(image)
        }
}

/// A signal that combines the values of two signals.
pub struct Map2<A: Signal, B: Signal, C> {
    signal1: A,
    signal2: B,
    callback: C,
    left: Option<A::Item>,
    right: Option<B::Item>,
}

impl<A: Signal, B: Signal, C> Map2<A, B, C> {
    /// The left signal.
    pub closed spec fn first(&self) -> A {
        self.signal1
    }

    /// The right signal.
    pub closed spec fn second(&self) -> B {
        self.signal2
    }

    /// The function that combines a left and a right value.
    pub closed spec fn combiner(&self) -> C {
        self.callback
    }

    /// The left value remembered from earlier polls.
    pub closed spec fn left_cache(&self) -> Option<A::Item> {
        self.left
    }

    /// The right value remembered from earlier polls.
    pub closed spec fn right_cache(&self) -> Option<B::Item> {
        self.right
    }

    pub(crate) fn new(signal1: A, signal2: B, callback: C) -> (combined: Self)
        ensures
            combined.first() == signal1,
            combined.second() == signal2,
            combined.combiner() == callback,
            combined.left_cache() is None,
            combined.right_cache() is None,
    {
        Map2 { signal1, signal2, callback, left: None, right: None }
    }
}

impl<A, B, C, D> Map2<A, B, C> where
    A: Signal,
    B: Signal,
    C: FnMut(&mut A::Item, &mut B::Item) -> D,
 {
    /// Both signals and the function are as in `self`.
    pub open spec fn same_parts(&self, next: Self) -> bool {
        &&& next.first() == self.first()
        &&& next.second() == self.second()
        &&& next.combiner() == self.combiner()
    }

    /// The decision of one poll, given what the two signals reported: the
    /// caches go from those of `self` to those of `next`, and `out` is
    /// reported.
    ///
    /// Where the sides pair up, the function is called on the latest value of
    /// each side, its result is reported, and both sides remember a value.
    /// Otherwise nothing is reported and each side remembers its latest
    /// value.
    pub open spec fn combines_to(
        &self,
        polled_left: State<A::Item>,
        polled_right: State<B::Item>,
        next: Self,
        out: State<D>,
    ) -> bool {
        let left = latest(self.left_cache(), polled_left);
        let right = latest(self.right_cache(), polled_right);
        if pairs_up(self.left_cache(), self.right_cache(), polled_left, polled_right) {
            &&& next.left_cache() is Some
            &&& next.right_cache() is Some
            &&& combined_by(self.combiner(), left->0, right->0, out)
        } else {
            &&& out is NotChanged
            &&& next.left_cache() == left
            &&& next.right_cache() == right
        }
    }

    /// Decides one poll from what the two signals reported.
    ///
    /// Each side offers the value that it has just reported, or else the
    /// value that it remembers. If at least one side has changed and both
    /// sides have a value to offer, the function is called on the two
    /// values and its result is reported; otherwise nothing is reported. In
    /// either case each side then remembers the value that it had to offer,
    /// as the function left it.
    pub fn combine(&mut self, polled_left: State<A::Item>, polled_right: State<B::Item>) -> (out:
        State<D>)
        requires
            forall|a: &mut A::Item, b: &mut B::Item|
                Some(*a) == latest(old(self).left_cache(), polled_left) && Some(*b) == latest(
                    old(self).right_cache(),
                    polled_right,
                ) ==> call_requires(old(self).combiner(), (a, b)),
        ensures
            old(self).same_parts(*final(self)),
            old(self).combines_to(polled_left, polled_right, *final(self), out),
            pairs_up(old(self).left_cache(), old(self).right_cache(), polled_left, polled_right)
                ==> exists|a: &mut A::Item, b: &mut B::Item, image: D|
                {
                    &&& Some(*a) == latest(old(self).left_cache(), polled_left)
                    &&& Some(*b) == latest(old(self).right_cache(), polled_right)
                    &&& #[trigger] call_ensures(old(self).combiner(), (a, b), image)
                    &&& out == State::Changed(image)
                    &&& final(self).left_cache() == Some(*final(a))
                    &&& final(self).right_cache() == Some(*final(b))
                },
    {
        let changed = match polled_left {
            State::Changed(_) => true,
            State::NotChanged => match polled_right {
                State::Changed(_) => true,
                State::NotChanged => false,
            },
        };
        let left = match polled_left {
            State::Changed(value) => Some(value),
            State::NotChanged => self.left.take(),
        };
        let right = match polled_right {
            State::Changed(value) => Some(value),
            State::NotChanged => self.right.take(),
        };
        if changed {
            match (left, right) {
                (Some(mut left), Some(mut right)) => {
                    assert(self.callback == old(self).combiner());
                    let output = (self.callback)(&mut left, &mut right);
                    self.left = Some(left);
                    self.right = Some(right);
                    State::Changed(output)
                },
                (left, right) => {
                    self.left = left;
                    self.right = right;
                    State::NotChanged
                },
            }
        } else {
            self.left = left;
            self.right = right;
            State::NotChanged
        }
    }
}

impl<A, B, C, D> Signal for Map2<A, B, C> where
    A: Signal,
    B: Signal,
    C: FnMut(&mut A::Item, &mut B::Item) -> D,
 {
    type Item = D;

    open spec fn inv(&self) -> bool {
        &&& self.first().inv()
        &&& self.second().inv()
        &&& forall|a: &mut A::Item, b: &mut B::Item| call_requires(self.combiner(), (a, b))
    }

    open spec fn yields(&self, value: D) -> bool {
        exists|a: &mut A::Item, b: &mut B::Item| call_ensures(self.combiner(), (a, b), value)
    }

    open spec fn polls_to(&self, next: Self, out: State<D>) -> bool {
        &&& next.combiner() == self.combiner()
        &&& exists|polled_left: State<A::Item>, polled_right: State<B::Item>|
            {
                &&& self.first().polls_to(next.first(), polled_left)
                &&& self.second().polls_to(next.second(), polled_right)
                &&& #[trigger] self.combines_to(polled_left, polled_right, next, out)
            }
    }

    /// Polls the left signal, then the right one, each exactly once, and
    /// decides from the two results as `combine` does.
    fn poll(&mut self) -> (out: State<D>)
        ensures
            exists|polled_left: State<A::Item>, polled_right: State<B::Item>|
                {
                    &&& old(self).first().polls_to(final(self).first(), polled_left)
                    &&& old(self).second().polls_to(final(self).second(), polled_right)
                    &&& #[trigger] old(self).combines_to(
                        polled_left,
                        polled_right,
                        *final(self),
                        out,
                    )
                    &&& pairs_up(
                        old(self).left_cache(),
                        old(self).right_cache(),
                        polled_left,
                        polled_right,
                    ) ==> exists|a: &mut A::Item, b: &mut B::Item, image: D|
                        {
                            &&& Some(*a) == latest(old(self).left_cache(), polled_left)
                            &&& Some(*b) == latest(old(self).right_cache(), polled_right)
                            &&& #[trigger] call_ensures(old(self).combiner(), (a, b), image)
                            &&& out == State::Changed(image)
                            &&& final(self).left_cache() == Some(*final(a))
                            &&& final(self).right_cache() == Some(*final(b))
                        }
                },
    {
        let polled_left = self.signal1.poll();
        let polled_right = self.signal2.poll();
        assert(self.combiner() == old(self).combiner());
        let out = self.combine(polled_left, polled_right);
        assert(old(self).combines_to(polled_left, polled_right, *self, out));
        out
    }
}

/// Whether a side has reported a value in one of the polls up to and
/// including the poll numbered `upto`.
pub open spec fn seen<T>(polls: Seq<State<T>>, upto: int) -> bool {
    exists|j: int| 0 <= j <= upto && j < polls.len() && #[trigger] polls[j] is Changed
}

/// Whether the poll numbered `i` has something to report: one side has
/// changed in it, and each side has reported a value in it or before it.
pub open spec fn due<L, R>(lefts: Seq<State<L>>, rights: Seq<State<R>>, i: int) -> bool {
    &&& lefts[i] is Changed || rights[i] is Changed
    &&& seen(lefts, i)
    &&& seen(rights, i)
}

/// The number of changes among the first `n` of `polls`.
pub open spec fn count_changed<T>(polls: Seq<State<T>>, n: nat) -> nat
    decreases n,
{
    if n == 0 {
        0
    } else {
        count_changed(polls, (n - 1) as nat) + if polls[n - 1] is Changed {
            1nat
        } else {
            0nat
        }
    }
}

/// The number of polls among the first `n` that have something to report.
pub open spec fn count_due<L, R>(lefts: Seq<State<L>>, rights: Seq<State<R>>, n: nat) -> nat
    decreases n,
{
    if n == 0 {
        0
    } else {
        count_due(lefts, rights, (n - 1) as nat) + if due(lefts, rights, n - 1) {
            1nat
        } else {
            0nat
        }
    }
}

impl<A, B, C, D> Map2<A, B, C> where
    A: Signal,
    B: Signal,
    C: FnMut(&mut A::Item, &mut B::Item) -> D,
 {
    /// `states` and `outs` record successive decisions of a signal that is
    /// `self` at first: the decision numbered `i` is made of `lefts[i]` and
    /// `rights[i]`, leaves the signal `states[i]` and reports `outs[i]`.
    pub open spec fn is_combining_run(
        &self,
        lefts: Seq<State<A::Item>>,
        rights: Seq<State<B::Item>>,
        states: Seq<Self>,
        outs: Seq<State<D>>,
    ) -> bool {
        &&& lefts.len() == outs.len()
        &&& rights.len() == outs.len()
        &&& states.len() == outs.len()
        &&& forall|i: int|
            0 <= i < outs.len() ==> polled_from(*self, states, i).combines_to(
                lefts[i],
                rights[i],
                states[i],
                #[trigger] outs[i],
            )
    }
}

/// After the decision numbered `i` of a run that began with nothing
/// remembered, a side remembers a value exactly if it has reported one, and
/// the decision reported a value exactly if it was due.
proof fn lemma_remembers_what_was_seen<A, B, C, D>(
    start: Map2<A, B, C>,
    lefts: Seq<State<A::Item>>,
    rights: Seq<State<B::Item>>,
    states: Seq<Map2<A, B, C>>,
    outs: Seq<State<D>>,
    i: int,
) where A: Signal, B: Signal, C: FnMut(&mut A::Item, &mut B::Item) -> D
    requires
        start.left_cache() is None,
        start.right_cache() is None,
        start.is_combining_run(lefts, rights, states, outs),
        0 <= i < outs.len(),
    ensures
        states[i].left_cache() is Some <==> seen(lefts, i),
        states[i].right_cache() is Some <==> seen(rights, i),
        outs[i] is Changed <==> due(lefts, rights, i),
    decreases i,
{
    if i > 0 {
        lemma_remembers_what_was_seen(start, lefts, rights, states, outs, i - 1);
    }
}

/// Among the first `n` decisions of such a run, as many reported a value as
/// were due.
proof fn lemma_counts_agree<A, B, C, D>(
    start: Map2<A, B, C>,
    lefts: Seq<State<A::Item>>,
    rights: Seq<State<B::Item>>,
    states: Seq<Map2<A, B, C>>,
    outs: Seq<State<D>>,
    n: nat,
) where A: Signal, B: Signal, C: FnMut(&mut A::Item, &mut B::Item) -> D
    requires
        start.left_cache() is None,
        start.right_cache() is None,
        start.is_combining_run(lefts, rights, states, outs),
        n <= outs.len(),
    ensures
        count_changed(outs, n) == count_due(lefts, rights, n),
    decreases n,
{
    if n > 0 {
        lemma_counts_agree(start, lefts, rights, states, outs, (n - 1) as nat);
        lemma_remembers_what_was_seen(start, lefts, rights, states, outs, n - 1);
    }
}

/// No update is dropped. In a run of decisions that begins with nothing
/// remembered, whatever the two sides report, a decision reports a value
/// exactly if one side has changed in it and each side has reported a
/// value in it or before it. So the number of values reported is the
/// number of such decisions.
pub proof fn lemma_map2_never_drops_an_update<A, B, C, D>(
    start: Map2<A, B, C>,
    lefts: Seq<State<A::Item>>,
    rights: Seq<State<B::Item>>,
    states: Seq<Map2<A, B, C>>,
    outs: Seq<State<D>>,
) where A: Signal, B: Signal, C: FnMut(&mut A::Item, &mut B::Item) -> D
    requires
        start.left_cache() is None,
        start.right_cache() is None,
        start.is_combining_run(lefts, rights, states, outs),
    ensures
        forall|i: int| 0 <= i < outs.len() ==> (#[trigger] outs[i] is Changed <==> due(lefts, rights, i)),
        count_changed(outs, outs.len()) == count_due(lefts, rights, outs.len()),
{
    assert forall|i: int| 0 <= i < outs.len() implies (#[trigger] outs[i] is Changed <==> due(
        lefts,
        rights,
        i,
    )) by {
        lemma_remembers_what_was_seen(start, lefts, rights, states, outs, i);
    }
    lemma_counts_agree(start, lefts, rights, states, outs, outs.len());
}

/// Clones both values of a pair. It is the combining function of a pair
/// that is to be combined further.
pub fn pair_clone<A: Clone, B: Clone>(left: &mut A, right: &mut B) -> (pair: (A, B))
    ensures
        *final(left) == *old(left),
        *final(right) == *old(right),
        cloned(*old(left), pair.0),
        cloned(*old(right), pair.1),
{
    (left.clone(), right.clone())
}

} // verus!
