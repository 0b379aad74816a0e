use futures::executor::{spawn, Notify};
use futures::future::poll_fn;
use signals::signal::unsync::{mutable, Sender, Slot};
use signals::signal::{Signal, SignalExt, State};
use std::sync::atomic::{AtomicUsize, Ordering};
use std::sync::Arc;

/// Counts how often the task was woken.
struct Wakes {
    count: AtomicUsize,
}

impl Notify for Wakes {
    fn notify(&self, _id: usize) {
        self.count.fetch_add(1, Ordering::SeqCst);
    }
}

#[test]
fn mutable_reports_its_initial_value() {
    let (_sender, mut receiver) = mutable(3u32);
    assert_eq!(receiver.poll(), State::Changed(3));
    assert_eq!(receiver.poll(), State::NotChanged);
}

#[test]
fn set_then_poll_round_trip() {
    let (sender, mut receiver) = mutable(0u32);
    assert_eq!(receiver.poll(), State::Changed(0));
    assert_eq!(sender.set(5), Ok(()));
    assert_eq!(receiver.poll(), State::Changed(5));
    assert_eq!(receiver.poll(), State::NotChanged);
}

#[test]
fn last_write_wins() {
    let (sender, mut receiver) = mutable(0u32);
    assert_eq!(sender.set(1), Ok(()));
    assert_eq!(sender.set(2), Ok(()));
    assert_eq!(sender.set(3), Ok(()));
    assert_eq!(receiver.poll(), State::Changed(3));
    assert_eq!(receiver.poll(), State::NotChanged);
}

#[test]
fn set_after_receivers_dropped_returns_value() {
    let (sender, receiver) = mutable(1u32);
    let clone = receiver.clone();
    drop(receiver);
    assert_eq!(sender.set(2), Ok(()));
    drop(clone);
    assert_eq!(sender.set(9), Err(9));
    assert_eq!(sender.set(10), Err(10));
}

#[test]
fn deliver_without_a_cell_returns_the_value() {
    assert_eq!(Sender::deliver(None, String::from("lost")), Err(String::from("lost")));
}

#[test]
fn clones_read_the_same_variable() {
    let (sender, mut first) = mutable(1u32);
    let mut second = first.clone();
    assert_eq!(second.poll(), State::Changed(1));
    assert_eq!(first.poll(), State::NotChanged);
    assert_eq!(sender.set(2), Ok(()));
    assert_eq!(first.poll(), State::Changed(2));
    assert_eq!(second.poll(), State::NotChanged);
}

#[test]
fn set_wakes_the_task_that_polled() {
    let (sender, mut receiver) = mutable(1u32);
    let wakes = Arc::new(Wakes { count: AtomicUsize::new(0) });
    let mut seen = Vec::new();
    {
        let mut task = spawn(poll_fn(|| -> futures::Poll<(), ()> {
            loop {
                match receiver.poll() {
                    State::Changed(value) => seen.push(value),
                    State::NotChanged => return Ok(futures::Async::NotReady),
                }
            }
        }));
        // The first run takes the initial value and then waits.
        assert_eq!(task.poll_future_notify(&wakes, 0), Ok(futures::Async::NotReady));
        assert_eq!(wakes.count.load(Ordering::SeqCst), 0);

        assert_eq!(sender.set(2), Ok(()));
        assert_eq!(wakes.count.load(Ordering::SeqCst), 1);
        // No task waits any more: a second write wakes nobody.
        assert_eq!(sender.set(3), Ok(()));
        assert_eq!(wakes.count.load(Ordering::SeqCst), 1);

        assert_eq!(task.poll_future_notify(&wakes, 0), Ok(futures::Async::NotReady));
        assert_eq!(sender.set(4), Ok(()));
        assert_eq!(wakes.count.load(Ordering::SeqCst), 2);
    }
    assert_eq!(seen, vec![1, 3]);
}

#[test]
fn only_the_last_poller_is_woken() {
    let (sender, mut first) = mutable(1u32);
    let mut second = first.clone();
    let first_wakes = Arc::new(Wakes { count: AtomicUsize::new(0) });
    let second_wakes = Arc::new(Wakes { count: AtomicUsize::new(0) });
    let mut first_task = spawn(poll_fn(|| -> futures::Poll<(), ()> {
        loop {
            if first.poll() == State::NotChanged {
                return Ok(futures::Async::NotReady);
            }
        }
    }));
    let mut second_task = spawn(poll_fn(|| -> futures::Poll<(), ()> {
        loop {
            if second.poll() == State::NotChanged {
                return Ok(futures::Async::NotReady);
            }
        }
    }));
    assert_eq!(first_task.poll_future_notify(&first_wakes, 0), Ok(futures::Async::NotReady));
    assert_eq!(second_task.poll_future_notify(&second_wakes, 0), Ok(futures::Async::NotReady));
    assert_eq!(sender.set(2), Ok(()));
    assert_eq!(first_wakes.count.load(Ordering::SeqCst), 0);
    assert_eq!(second_wakes.count.load(Ordering::SeqCst), 1);
}

#[test]
fn poll_outside_of_a_task_registers_nobody() {
    let (sender, mut receiver) = mutable(1u32);
    assert_eq!(receiver.poll(), State::Changed(1));
    assert_eq!(receiver.poll(), State::NotChanged);
    assert_eq!(sender.set(2), Ok(()));
    assert_eq!(receiver.poll(), State::Changed(2));
}

#[test]
fn slot_holds_at_most_one_value() {
    let mut slot = Slot::holding(1u32);
    assert!(slot.store(2).is_none());
    assert!(slot.store(3).is_none());
    assert_eq!(slot.take(), State::Changed(3));
    assert_eq!(slot.take(), State::NotChanged);
    let mut slot = Slot::<u32>::vacant();
    assert_eq!(slot.take(), State::NotChanged);
    slot.park(None);
    assert!(slot.store(7).is_none());
    assert_eq!(slot.take(), State::Changed(7));
}

#[test]
fn mutable_feeds_a_combinator_chain() {
    let (sender, receiver) = mutable(1u32);
    let mut s = receiver.map_dedupe(|x| *x * 2).filter_map(|x| if x > 2 { Some(x) } else { None });
    // The first value is dropped by the filter: the one empty event.
    assert_eq!(s.poll(), State::Changed(None));
    assert_eq!(sender.set(1), Ok(()));
    assert_eq!(s.poll(), State::NotChanged);
    assert_eq!(sender.set(4), Ok(()));
    assert_eq!(s.poll(), State::Changed(Some(8)));
    assert_eq!(sender.set(4), Ok(()));
    assert_eq!(s.poll(), State::NotChanged);
    assert_eq!(sender.set(1), Ok(()));
    assert_eq!(s.poll(), State::NotChanged);
    assert_eq!(sender.set(5), Ok(()));
    assert_eq!(s.poll(), State::Changed(Some(10)));
}
