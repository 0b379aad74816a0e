//! The mutable variable: a cell that a `Sender` writes and that `Receiver`s
//! read as a signal. It is for use on one thread.

use super::shared::Unconstrained;
use super::state::State;
use super::traits::Signal;
use futures::task::Task;
use std::rc::Rc;
use std::rc::Weak;
use vstd::cell::invcell::InvCell;
use vstd::prelude::*;

verus! {

/// A handle to a task of the scheduler, `futures::task::Task`. Nothing is
/// known of what it holds.
#[verifier::external_type_specification]
#[verifier::external_body]
pub struct ExTask(futures::task::Task);

/// Calls `futures::task::is_in_task`: whether the caller runs within a task.
/// The answer depends on the caller's surroundings, so nothing is claimed
/// of it.
#[verifier::external_body]
fn in_task() -> bool {
    futures::task::is_in_task()
}

/// Calls `futures::task::current`, which returns a handle to the task that
/// is running. Nothing is claimed of the handle. Outside of a task
/// `current` panics: this library calls it only where `in_task` has just
/// returned `true`.
#[verifier::external_body]
fn current_task() -> Task {
    futures::task::current()
}

/// Calls `Task::notify`, which asks the scheduler to poll the task again.
/// It returns nothing, and nothing is claimed of it.
#[verifier::external_body]
fn notify(task: &Task) {
    task.notify()
}

/// The task that is running, if the caller runs within one.
fn running_task() -> Option<Task> {
    if in_task() {
        Some(current_task())
    } else {
        None
    }
}

/// What the shared cell of a mutable variable holds: at most one value that
/// no poll has taken yet, and at most one task that waits for a value.
pub struct Slot<A> {
    value: Option<A>,
    task: Option<Task>,
}

/// The cell of a mutable variable, shared by the receivers that keep it
/// alive.
pub type SharedSlot<A> = Rc<InvCell<Slot<A>, Unconstrained>>;

impl<A> Slot<A> {
    /// The value that was set and not taken yet.
    pub closed spec fn pending(&self) -> Option<A> {
        self.value
    }

    /// The task to wake when a value is set.
    pub closed spec fn waiter(&self) -> Option<Task> {
        self.task
    }

    /// The slot after `value` has been set: the value is pending, in place
    /// of any other, and no task waits any more.
    pub open spec fn set_to(&self, value: A, next: Self) -> bool {
        &&& next.pending() == Some(value)
        &&& next.waiter() is None
    }

    /// What a poll reports of the slot: the pending value, if there is one.
    pub open spec fn report(&self) -> State<A> {
        match self.pending() {
            Some(value) => State::Changed(value),
            None => State::NotChanged,
        }
    }

    /// The slot after a poll, where `task` is the running task, if any: the
    /// pending value is gone, and where there was none the running task
    /// waits, in place of any other.
    pub open spec fn polled_to(&self, task: Option<Task>, next: Self) -> bool {
        &&& next.pending() is None
        &&& next.waiter() == if self.pending() is None && task is Some {
            task
        } else {
            self.waiter()
        }
    }

    /// A slot with a pending value and no waiting task.
    pub fn holding(value: A) -> (slot: Self)
        ensures
            slot.pending() == Some(value),
            slot.waiter() is None,
    {
        Slot { value: Some(value), task: None }
    }

    /// A slot with no pending value and no waiting task.
    pub fn vacant() -> (slot: Self)
        ensures
            slot.pending() is None,
            slot.waiter() is None,
    {
        Slot { value: None, task: None }
    }

    /// Sets the pending value, in place of any value that was not taken, and
    /// hands out the task that waited, which is to be woken.
    pub fn store(&mut self, value: A) -> (woken: Option<Task>)
        ensures
            old(self).set_to(value, *final(self)),
            woken == old(self).waiter(),
    {
        self.value = Some(value);
        self.task.take()
    }

    /// Registers `task` as the task that waits, in place of any other. With
    /// no task nothing changes.
    pub fn park(&mut self, task: Option<Task>)
        ensures
            final(self).pending() == old(self).pending(),
            final(self).waiter() == if task is Some {
                task
            } else {
                old(self).waiter()
            },
    {
        match task {
            Some(task) => {
                self.task = Some(task);
            },
            None => {},
        }
    }

    /// Takes the pending value. Where there is none, the running task is
    /// registered to be woken by the next `store`.
    pub fn take(&mut self) -> (out: State<A>)
        ensures
            out == old(self).report(),
            exists|task: Option<Task>| old(self).polled_to(task, *final(self)),
            old(self).pending() is Some ==> final(self).waiter() == old(self).waiter(),
    {
        match self.value.take() {
            Some(value) => {
                assert(old(self).polled_to(None, *self));
                State::Changed(value)
            },
            None => {
                let task = running_task();
                self.park(task);
                assert(old(self).polled_to(task, *self));
                State::NotChanged
            },
        }
    }
}

/// A value that is set and then polled is reported by that poll, and the
/// poll after it reports no change.
pub proof fn lemma_set_then_poll<A>(
    slot: Slot<A>,
    value: A,
    set: Slot<A>,
    first_task: Option<Task>,
    polled: Slot<A>,
)
    requires
        slot.set_to(value, set),
        set.polled_to(first_task, polled),
    ensures
        set.report() == State::Changed(value),
        polled.report() == State::<A>::NotChanged,
{
}

/// Of two values set with no poll between them, the poll reports the second.
pub proof fn lemma_last_write_wins<A>(
    slot: Slot<A>,
    first: A,
    once: Slot<A>,
    second: A,
    twice: Slot<A>,
)
    requires
        slot.set_to(first, once),
        once.set_to(second, twice),
    ensures
        twice.report() == State::Changed(second),
{
}

/// A reference to the shared cell that does not keep it alive: a
/// `std::rc::Weak`, which Verus cannot be told of as a type.
#[verifier::external_body]
#[verifier::reject_recursive_types(A)]
struct WeakCell<A> {
    inner: Weak<InvCell<Slot<A>, Unconstrained>>,
}

/// Calls `Rc::downgrade`, which makes a reference to the cell that does not
/// keep it alive. Nothing is claimed of the result.
#[verifier::external_body]
fn downgrade<A>(cell: &SharedSlot<A>) -> WeakCell<A> {
    WeakCell { inner: Rc::downgrade(cell) }
}

/// Calls `Weak::upgrade`, which returns the cell if an `Rc` still keeps it
/// alive, and `None` if not. Which of the two depends on the other handles,
/// so nothing is claimed of the result.
#[verifier::external_body]
fn upgrade<A>(weak: &WeakCell<A>) -> Option<SharedSlot<A>> {
    weak.inner.upgrade()
}

/// The writing side of a mutable variable. It does not keep the cell alive.
#[verifier::reject_recursive_types(A)]
pub struct Sender<A> {
    inner: Bound<A>,
}

impl<A> Sender<A> {
    /// Writes `value` to `cell`, where there is one, and wakes the task
    /// that waited for it. With no cell the value comes back.
    pub fn deliver(cell: Option<SharedSlot<A>>, value: A) -> (res: Result<(), A>)
        ensures
            res == match cell {
                Some(_) => Ok::<(), A>(()),
                None => Err::<(), A>(value),
            },
    {
        match cell {
            Some(cell) => {
                let mut slot = cell.replace(Slot::vacant());
                let woken = slot.store(value);
                cell.replace(slot);
                match woken {
                    Some(task) => notify(&task),
                    None => {},
                }
                Ok(())
            },
            None => Err(value),
        }
    }

    /// Sets the value of the variable, in place of any value that has not
    /// been polled yet. Where all receivers are gone the variable is gone
    /// too, and the value comes back as the error.
    pub fn set(&self, value: A) -> (res: Result<(), A>)
        ensures
            res matches Err(back) ==> back == value,
    {
        let cell = upgrade(&self.inner.weak);
        Self::deliver(cell, value)
    }
}

/// The reading side of a mutable variable: a signal that reports each value
/// that was set, unless another was set before the poll. Its clones read
/// the same variable.
#[derive(Clone)]
pub struct Receiver<A> {
    inner: SharedSlot<A>,
}

impl<A> Signal for Receiver<A> {
    type Item = A;

    open spec fn inv(&self) -> bool {
        true
    }

    open spec fn yields(&self, value: A) -> bool {
        true
    }

    open spec fn polls_to(&self, next: Self, out: State<A>) -> bool {
        next == *self
    }

    /// Takes the pending value out of the cell, as `Slot::take` does.
    fn poll(&mut self) -> (out: State<A>) {
        let mut slot = self.inner.replace(Slot::vacant());
        let out = slot.take();
        self.inner.replace(slot);
        out
    }
}

/// A mutable variable that holds `initial_value`, as its writing and its
/// reading side. The sender is made for the cell of the receiver.
pub fn mutable<A>(initial_value: A) -> (pair: (Sender<A>, Receiver<A>))
    ensures
        pair.0.target() == pair.1.cell(),
{
    let inner = Rc::new(InvCell::new(Slot::holding(initial_value), Ghost(Unconstrained)));
    let sender = Sender { inner: Bound::to(&inner) };
    let receiver = Receiver { inner };
    (sender, receiver)
}

/// A weak reference to a cell, with a record of the cell that it was made
/// for.
#[verifier::reject_recursive_types(A)]
struct Bound<A> {
    weak: WeakCell<A>,
    cell: Ghost<SharedSlot<A>>,
}

impl<A> Bound<A> {
    /// A weak reference to `cell`.
    fn to(cell: &SharedSlot<A>) -> (bound: Self)
        ensures
            bound.cell@ == *cell,
    {
        Bound { weak: downgrade(cell), cell: Ghost(*cell) }
    }
}

impl<A> Sender<A> {
    /// The cell that this sender was made for.
    pub closed spec fn target(&self) -> SharedSlot<A> {
        self.inner.cell@
    }
}

impl<A> Receiver<A> {
    /// The cell that this receiver reads and keeps alive.
    pub closed spec fn cell(&self) -> SharedSlot<A> {
        self.inner
    }
}

} // verus!
