use signals::signal::unsync::mutable;
use signals::signal::{always, pair_clone, Always, Signal, SignalExt, State, REDRIVE_LIMIT};
use std::cell::Cell;
use std::collections::VecDeque;
use std::rc::Rc;

/// A signal that reports the listed results, one per poll, and then nothing.
struct Feed<T> {
    items: VecDeque<State<T>>,
}

fn feed<T>(items: Vec<State<T>>) -> Feed<T> {
    Feed { items: items.into_iter().collect() }
}

impl<T> Signal for Feed<T> {
    type Item = T;

    fn poll(&mut self) -> State<T> {
        match self.items.pop_front() {
            Some(out) => out,
            None => State::NotChanged,
        }
    }
}

/// A signal that counts the polls of the signal it wraps.
struct Counted<S> {
    signal: S,
    polls: Rc<Cell<u32>>,
}

impl<S: Signal> Signal for Counted<S> {
    type Item = S::Item;

    fn poll(&mut self) -> State<S::Item> {
        self.polls.set(self.polls.get() + 1);
        self.signal.poll()
    }
}

#[test]
fn state_map_touches_only_changed() {
    assert_eq!(State::Changed(3u32).map(|x| x + 1), State::Changed(4));
    assert_eq!(State::<u32>::NotChanged.map(|x| x + 1), State::NotChanged);
}

#[test]
fn always_reports_its_value_once() {
    let mut s = always(7u32);
    assert_eq!(s.poll(), State::Changed(7));
    assert_eq!(s.poll(), State::NotChanged);
    assert_eq!(s.poll(), State::NotChanged);
}

#[test]
fn map_transforms_each_value() {
    let mut s = feed(vec![State::Changed(1u32), State::NotChanged, State::Changed(5)]).map(|x| x * 10);
    assert_eq!(s.poll(), State::Changed(10));
    assert_eq!(s.poll(), State::NotChanged);
    assert_eq!(s.poll(), State::Changed(50));
    assert_eq!(s.poll(), State::NotChanged);
}

#[test]
fn map_passes_not_changed_without_calling_the_function() {
    let mut calls = 0u32;
    {
        let mut s = feed(vec![State::<u32>::NotChanged, State::NotChanged]).map(|x| {
            calls += 1;
            x
        });
        assert_eq!(s.poll(), State::NotChanged);
        assert_eq!(s.poll(), State::NotChanged);
        assert_eq!(s.emit(State::NotChanged), State::NotChanged);
    }
    assert_eq!(calls, 0);
}

#[test]
fn map_dedupe_suppresses_equal_repeats() {
    // One value per poll: each value is set and then polled.
    let (sender, receiver) = mutable(1u32);
    let mut s = receiver.map_dedupe(|x| *x);
    let mut seen = vec![s.poll()];
    for value in [1u32, 2, 2, 2, 3] {
        assert_eq!(sender.set(value), Ok(()));
        seen.push(s.poll());
    }
    assert_eq!(
        seen,
        vec![
            State::Changed(1),
            State::NotChanged,
            State::Changed(2),
            State::NotChanged,
            State::NotChanged,
            State::Changed(3),
        ]
    );
}

#[test]
fn map_dedupe_decides_each_value_of_the_sequence() {
    let mut s = always(0u32).map_dedupe(|x| *x);
    let verdicts: Vec<Option<State<u32>>> =
        [1u32, 1, 2, 2, 2, 3].iter().map(|value| s.offer(State::Changed(*value))).collect();
    assert_eq!(
        verdicts,
        vec![
            Some(State::Changed(1)),
            None,
            Some(State::Changed(2)),
            None,
            None,
            Some(State::Changed(3)),
        ]
    );
}

#[test]
fn map_dedupe_polls_again_after_an_equal_value() {
    let mut s = feed(vec![
        State::Changed(1u32),
        State::Changed(1),
        State::Changed(1),
        State::Changed(2),
        State::Changed(2),
        State::NotChanged,
        State::Changed(1),
    ])
    .map_dedupe(|x| *x * 100);
    assert_eq!(s.poll(), State::Changed(100));
    // The two repeats are swallowed within one poll, which reports the 2.
    assert_eq!(s.poll(), State::Changed(200));
    // The repeat of 2 is swallowed and the source has no more.
    assert_eq!(s.poll(), State::NotChanged);
    assert_eq!(s.poll(), State::Changed(100));
    assert_eq!(s.poll(), State::NotChanged);
}

#[test]
fn map_dedupe_compares_inputs_not_outputs() {
    let mut s = feed(vec![State::Changed(1u32), State::Changed(2), State::Changed(3)]).map_dedupe(|_| 0u32);
    assert_eq!(s.poll(), State::Changed(0));
    assert_eq!(s.poll(), State::Changed(0));
    assert_eq!(s.poll(), State::Changed(0));
    assert_eq!(s.poll(), State::NotChanged);
}

#[test]
fn map_dedupe_offer_tells_swallowed_from_reported() {
    let mut s = always(0u32).map_dedupe(|x| *x + 1);
    assert_eq!(s.offer(State::NotChanged), Some(State::NotChanged));
    assert_eq!(s.offer(State::Changed(4)), Some(State::Changed(5)));
    assert_eq!(s.offer(State::Changed(4)), None);
    assert_eq!(s.offer(State::NotChanged), Some(State::NotChanged));
    assert_eq!(s.offer(State::Changed(4)), None);
    assert_eq!(s.offer(State::Changed(5)), Some(State::Changed(6)));
}

#[test]
fn filter_map_emits_one_initial_empty_event() {
    // One value per poll: each value is set and then polled.
    let (sender, receiver) = mutable(None::<u32>);
    let mut s = receiver.filter_map(|x| x);
    let mut seen = vec![s.poll()];
    for result in [None, Some(5u32), None] {
        assert_eq!(sender.set(result), Ok(()));
        seen.push(s.poll());
    }
    assert_eq!(
        seen,
        vec![State::Changed(None), State::NotChanged, State::Changed(Some(5)), State::NotChanged]
    );
}

#[test]
fn filter_map_offer_tells_swallowed_from_reported() {
    let mut s = always(None::<u32>).filter_map(|x| x);
    assert_eq!(s.offer(State::NotChanged), Some(State::NotChanged));
    assert_eq!(s.offer(State::Changed(None)), Some(State::Changed(None)));
    assert_eq!(s.offer(State::Changed(None)), None);
    assert_eq!(s.offer(State::Changed(Some(5))), Some(State::Changed(Some(5))));
    assert_eq!(s.offer(State::Changed(None)), None);
    assert_eq!(s.offer(State::NotChanged), Some(State::NotChanged));
}

#[test]
fn filter_map_first_value_kept_gives_no_empty_event() {
    let mut s = feed(vec![State::Changed(4u32), State::Changed(1), State::Changed(6)])
        .filter_map(|x| if x > 3 { Some(x * 2) } else { None });
    assert_eq!(s.poll(), State::Changed(Some(8)));
    // The 1 is dropped and swallowed, and the same poll reports the 6.
    assert_eq!(s.poll(), State::Changed(Some(12)));
    assert_eq!(s.poll(), State::NotChanged);
}

#[test]
fn filter_map_polls_again_after_a_dropped_value() {
    let mut s = feed(vec![
        State::Changed(1u32),
        State::Changed(2),
        State::Changed(3),
        State::NotChanged,
        State::Changed(9),
    ])
    .filter_map(|x| if x > 3 { Some(x) } else { None });
    assert_eq!(s.poll(), State::Changed(None));
    assert_eq!(s.poll(), State::NotChanged);
    assert_eq!(s.poll(), State::Changed(Some(9)));
    assert_eq!(s.poll(), State::NotChanged);
}

#[test]
fn map2_decision_table() {
    // Left changed, right changed.
    let mut s = always(0u32).map2(always(0u32), |l: &mut u32, r: &mut u32| *l * 10 + *r);
    assert_eq!(s.combine(State::Changed(1), State::Changed(2)), State::Changed(12));
    // Left changed, right remembered.
    assert_eq!(s.combine(State::Changed(3), State::NotChanged), State::Changed(32));
    // Left remembered, right changed.
    assert_eq!(s.combine(State::NotChanged, State::Changed(4)), State::Changed(34));
    // Neither changed.
    assert_eq!(s.combine(State::NotChanged, State::NotChanged), State::NotChanged);

    // Left changed, nothing remembered on the right: no report, left is remembered.
    let mut s = always(0u32).map2(always(0u32), |l: &mut u32, r: &mut u32| *l * 10 + *r);
    assert_eq!(s.combine(State::Changed(1), State::NotChanged), State::NotChanged);
    assert_eq!(s.combine(State::Changed(2), State::NotChanged), State::NotChanged);
    assert_eq!(s.combine(State::NotChanged, State::Changed(5)), State::Changed(25));

    // Right changed, nothing remembered on the left: no report, right is remembered.
    let mut s = always(0u32).map2(always(0u32), |l: &mut u32, r: &mut u32| *l * 10 + *r);
    assert_eq!(s.combine(State::NotChanged, State::Changed(7)), State::NotChanged);
    assert_eq!(s.combine(State::Changed(1), State::NotChanged), State::Changed(17));
}

#[test]
fn map2_polls_both_sides_every_time() {
    let left = feed(vec![State::NotChanged, State::Changed(1u32), State::NotChanged]);
    let right = feed(vec![State::Changed(5u32), State::NotChanged, State::Changed(6)]);
    let mut s = left.map2(right, |l: &mut u32, r: &mut u32| *l * 10 + *r);
    // The right side is polled although the left has nothing yet.
    assert_eq!(s.poll(), State::NotChanged);
    assert_eq!(s.poll(), State::Changed(15));
    assert_eq!(s.poll(), State::Changed(16));
    assert_eq!(s.poll(), State::NotChanged);
}

#[test]
fn map2_remembers_what_the_function_left() {
    let mut s = always(0u32).map2(always(0u32), |l: &mut u32, r: &mut u32| {
        let sum = *l + *r;
        *l += 100;
        *r += 1000;
        sum
    });
    assert_eq!(s.combine(State::Changed(1), State::Changed(2)), State::Changed(3));
    assert_eq!(s.combine(State::Changed(5), State::NotChanged), State::Changed(1007));
    assert_eq!(s.combine(State::NotChanged, State::Changed(7)), State::Changed(112));
}

fn reports(left: bool, right: bool, tick: u32) -> (State<u32>, State<u32>) {
    (
        if left { State::Changed(tick) } else { State::NotChanged },
        if right { State::Changed(tick) } else { State::NotChanged },
    )
}

#[test]
fn map2_never_drops_an_update() {
    // Every interleaving of changes on the two sides over four polls.
    let polls = 4u32;
    for code in 0u32..(1 << (2 * polls)) {
        let mut s = always(0u32).map2(always(0u32), |l: &mut u32, r: &mut u32| (*l, *r));
        let mut seen_left = false;
        let mut seen_right = false;
        let mut reported = 0u32;
        let mut due = 0u32;
        for tick in 0..polls {
            let left = (code >> (2 * tick)) & 1 == 1;
            let right = (code >> (2 * tick + 1)) & 1 == 1;
            seen_left = seen_left || left;
            seen_right = seen_right || right;
            if (left || right) && seen_left && seen_right {
                due += 1;
            }
            let (l, r) = reports(left, right, tick);
            if let State::Changed(_) = s.combine(l, r) {
                reported += 1;
            }
        }
        assert_eq!(reported, due);
    }
}

#[test]
fn pair_clone_clones_both_and_leaves_them() {
    let mut left = String::from("l");
    let mut right = 4u32;
    let pair = pair_clone(&mut left, &mut right);
    assert_eq!(pair, (String::from("l"), 4));
    assert_eq!(left, "l");
    assert_eq!(right, 4);
}

#[test]
fn flatten_follows_the_latest_inner_signal() {
    let outer = feed(vec![
        State::NotChanged,
        State::Changed(feed(vec![State::Changed(1u32), State::NotChanged, State::Changed(2)])),
        State::NotChanged,
        State::NotChanged,
        State::Changed(feed(vec![State::Changed(10u32), State::Changed(11)])),
        State::NotChanged,
    ]);
    let mut s = outer.flatten();
    assert_eq!(s.poll(), State::NotChanged);
    assert_eq!(s.poll(), State::Changed(1));
    assert_eq!(s.poll(), State::NotChanged);
    assert_eq!(s.poll(), State::Changed(2));
    assert_eq!(s.poll(), State::Changed(10));
    assert_eq!(s.poll(), State::Changed(11));
    assert_eq!(s.poll(), State::NotChanged);
}

#[test]
fn flatten_does_not_force_a_report_on_switch() {
    let mut s = always(0u32).map(|_| always(0u32)).flatten();
    // The new inner signal has nothing to report at its first poll.
    let quiet = {
        let mut inner = always(5u32);
        assert_eq!(inner.poll(), State::Changed(5));
        inner
    };
    assert_eq!(s.follow(State::Changed(quiet)), State::NotChanged);
    assert_eq!(s.follow(State::NotChanged), State::NotChanged);
    // A change appears when the inner signal itself changes.
    assert_eq!(s.follow(State::Changed(always(6))), State::Changed(6));
    assert_eq!(s.follow(State::NotChanged), State::NotChanged);
}

#[test]
fn flatten_without_an_inner_signal_reports_nothing() {
    let mut s = feed(Vec::<State<Always<u32>>>::new()).flatten();
    assert_eq!(s.poll(), State::NotChanged);
    assert_eq!(s.follow(State::NotChanged), State::NotChanged);
}

#[test]
fn switch_is_map_then_flatten() {
    let mut s = feed(vec![State::Changed(3u32), State::NotChanged, State::Changed(4)]).switch(|x| always(x * 2));
    assert_eq!(s.poll(), State::Changed(6));
    assert_eq!(s.poll(), State::NotChanged);
    assert_eq!(s.poll(), State::Changed(8));
    assert_eq!(s.poll(), State::NotChanged);
}

#[test]
fn nothing_is_computed_before_a_poll() {
    let calls = std::cell::Cell::new(0u32);
    let mut s = always(1u32)
        .map(|x| {
            calls.set(calls.get() + 1);
            x
        })
        .map2(always(2u32), |l: &mut u32, r: &mut u32| {
            calls.set(calls.get() + 1);
            *l + *r
        })
        .filter_map(|x| {
            calls.set(calls.get() + 1);
            Some(x)
        })
        .map_dedupe(|x| {
            calls.set(calls.get() + 1);
            x.unwrap_or(0)
        });
    assert_eq!(calls.get(), 0);
    assert_eq!(s.poll(), State::Changed(3));
    assert_eq!(calls.get(), 4);
    assert_eq!(s.poll(), State::NotChanged);
    assert_eq!(calls.get(), 4);
}

#[test]
fn as_mut_borrows_the_signal() {
    let mut s = always(1u32);
    assert_eq!(s.as_mut().poll(), State::Changed(1));
    assert_eq!(s.poll(), State::NotChanged);
}

#[test]
fn redrive_limit_is_the_largest_count() {
    assert_eq!(REDRIVE_LIMIT, 18_446_744_073_709_551_615);
    assert_eq!(REDRIVE_LIMIT, u64::MAX);
}

#[test]
fn a_swallowed_value_is_followed_by_a_poll_in_the_same_call() {
    let polls = Rc::new(Cell::new(0u32));
    let source = Counted {
        signal: feed(vec![
            State::Changed(1u32),
            State::Changed(1),
            State::Changed(1),
            State::Changed(2),
        ]),
        polls: polls.clone(),
    };
    let mut s = source.map_dedupe(|x| *x);
    assert_eq!(s.poll(), State::Changed(1));
    assert_eq!(polls.get(), 1);
    // Two repeats are swallowed and the third poll of the source gives the 2.
    assert_eq!(s.poll(), State::Changed(2));
    assert_eq!(polls.get(), 4);
    assert_eq!(s.poll(), State::NotChanged);
    assert_eq!(polls.get(), 5);

    let polls = Rc::new(Cell::new(0u32));
    let source = Counted {
        signal: feed(vec![State::Changed(1u32), State::Changed(2), State::Changed(3), State::Changed(8)]),
        polls: polls.clone(),
    };
    let mut s = source.filter_map(|x| if x > 5 { Some(x) } else { None });
    // The first value is dropped and reported as the empty event.
    assert_eq!(s.poll(), State::Changed(None));
    assert_eq!(polls.get(), 1);
    // Two dropped values are swallowed and the third poll of the source gives the 8.
    assert_eq!(s.poll(), State::Changed(Some(8)));
    assert_eq!(polls.get(), 4);
}
