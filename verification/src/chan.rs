use crate::state::Inner;
use crate::state::RecvStep;
use std::collections::VecDeque;
use std::sync::Arc;
use std::sync::Condvar;
use std::sync::Mutex;
use vstd::prelude::*;

verus! {

#[verifier::external_type_specification]
#[verifier::external_body]
#[verifier::reject_recursive_types(T)]
pub struct ExMutex<T: ?Sized>(Mutex<T>);

#[verifier::external_type_specification]
#[verifier::external_body]
pub struct ExCondvar(Condvar);

/// Relies on std::sync::Mutex::new: wraps the value in a fresh, unlocked lock.
pub assume_specification<T>[ Mutex::<T>::new ](value: T) -> (lock: Mutex<T>);

/// Relies on std::sync::Condvar::new: a fresh condition variable nobody waits on.
pub assume_specification[ Condvar::new ]() -> (condvar: Condvar);

/// The state one channel shares among its handles: the message queue and the
/// sender count behind one lock, paired with the condition variable on which
/// the receiver blocks while it waits for a sender to act.
#[verifier::reject_recursive_types(T)]
pub struct Shared<T> {
    inner: Mutex<Inner<T>>,
    is_available: Condvar,
}

/// A producer handle. Clones freely; every live clone counts toward the
/// channel's sender count, and the channel closes once the last one is gone.
#[verifier::reject_recursive_types(T)]
pub struct Sender<T> {
    shared: Arc<Shared<T>>,
}

/// The one consumer handle: a reference to the shared state plus a private
/// buffer of messages already moved out of the shared queue, which only the
/// receiver's own thread ever touches.
#[verifier::reject_recursive_types(T)]
pub struct Receiver<T> {
    shared: Arc<Shared<T>>,
    buffer: VecDeque<T>,
}

/// Relies on std::sync::Arc::clone: the returned handle is equal to the given
/// one and refers to the same allocation.
#[verifier::external_body]
fn share<T>(shared: &Arc<Shared<T>>) -> (other: Arc<Shared<T>>)
    ensures
        other == *shared,
{
    Arc::clone(shared)
}

/// Relies on std::sync::Mutex::lock (a poisoned lock is treated as fatal):
/// the body holds the lock while the verified Inner::enqueue appends the
/// message, so it takes the tail position the lock order gives it. No
/// contract can carry that effect out: the state lives behind the opaque
/// Mutex that other threads share, and Verus has no spec view of it.
#[verifier::external_body]
fn lock_and_enqueue<T>(shared: &Shared<T>, message: T) {
    let mut inner = shared.inner.lock().unwrap();
    inner.enqueue(message);
}

/// Relies on std::sync::Condvar::notify_one: wakes one waiting receiver, if
/// any thread waits; otherwise does nothing, and never panics.
#[verifier::external_body]
fn notify_receiver<T>(shared: &Shared<T>)
    opens_invariants none
    no_unwind
{
    shared.is_available.notify_one();
}

/// Relies on std::sync::Mutex::lock (poisoning fatal): the body holds the
/// lock while the verified Inner::sender_arrived increments the count, so no
/// concurrent drop sees a transient value; as with the other lock wrappers,
/// no contract can carry the effect out of the opaque Mutex. The count meets
/// the increment's precondition because it never exceeds the number of live
/// handles, which is far below usize::MAX.
#[verifier::external_body]
fn lock_and_count_arrival<T>(shared: &Shared<T>) {
    let mut inner = shared.inner.lock().unwrap();
    inner.sender_arrived();
}

/// Relies on std::sync::Mutex::lock and std::sync::Condvar::wait, which share
/// one critical section so that no notification is lost between checking the
/// state and starting to wait. The verified Inner::recv_step takes every
/// decision and the verified RecvStep::into_received converts its result; the
/// body keeps only what cannot leave it: holding the lock — the state behind
/// the opaque Mutex has no spec view a contract could carry — and one branch,
/// blocking whenever the step says to wait, a loop no contract can bound
/// since it ends only when a sender acts. The receiver's buffer is touched by
/// no other thread, so when nothing was delivered it comes back exactly as it
/// went in.
#[verifier::external_body]
fn lock_and_recv<T>(shared: &Shared<T>, buffer: &mut VecDeque<T>) -> (received: Option<T>)
    requires
        old(buffer)@.len() == 0,
    ensures
        received is None ==> final(buffer)@ == old(buffer)@,
{
    let mut inner = shared.inner.lock().unwrap();
    loop {
        let step = inner.recv_step(buffer);
        if let RecvStep::Wait = step {
            inner = shared.is_available.wait(inner).unwrap();
        } else {
            return step.into_received();
        }
    }
}

/// Relies on std::sync::Mutex::lock (poisoning fatal, and poisoning cannot
/// start here: only this library's verified, panic-free state functions run
/// inside the channel's critical sections): the body holds the lock while the
/// verified Inner::sender_departed decrements the count — no contract can
/// carry that effect out, since the state lives behind the opaque Mutex that
/// other threads share — and hands its verified result back unchanged. The
/// count is at least one while a handle still exists to be dropped.
#[verifier::external_body]
fn lock_and_count_departure<T>(shared: &Shared<T>) -> (last: bool)
    opens_invariants none
    no_unwind
{
    let mut inner = shared.inner.lock().unwrap();
    inner.sender_departed()
}

impl<T> Sender<T> {
    /// The shared channel state this handle references.
    pub closed spec fn channel_ref(&self) -> Arc<Shared<T>> {
        self.shared
    }

    /// Appends the message at the tail of the shared queue — taking the
    /// position the lock order assigns among concurrent sends — then wakes a
    /// blocked receiver. Never fails and never blocks beyond the brief
    /// critical section, whether or not the receiver still exists.
    pub fn send(&mut self, message: T)
        ensures
            *final(self) == *old(self),
    {
        lock_and_enqueue(&self.shared, message);
        notify_receiver(&self.shared);
    }
}

impl<T> Clone for Sender<T> {
    /// Counts the new handle under the lock before constructing it, so the
    /// sender count never under-counts the live handles.
    fn clone(&self) -> (other: Self)
        ensures
            other == *self,
            other.channel_ref() == self.channel_ref(),
    {
        lock_and_count_arrival(&self.shared);
        Sender { shared: share(&self.shared) }
    }
}

impl<T> Drop for Sender<T> {
    /// Counts this handle out under the lock and, exactly when it was the
    /// last sender, wakes the receiver — after the lock is released — so a
    /// blocked receive can observe closure instead of waiting forever.
    fn drop(&mut self)
        opens_invariants none
        no_unwind
    {
        let was_last = lock_and_count_departure(&self.shared);
        if was_last {
            notify_receiver(&self.shared);
        }
    }
}

impl<T> Receiver<T> {
    /// The shared channel state this handle references.
    pub closed spec fn channel_ref(&self) -> Arc<Shared<T>> {
        self.shared
    }

    /// The messages already moved out of the shared queue and not yet handed
    /// to the caller, oldest first. Older than anything still pending in the
    /// shared queue.
    pub closed spec fn buffered(&self) -> Seq<T> {
        self.buffer@
    }

    /// Takes the oldest undelivered message. The private buffer is served
    /// first, without the lock; on a miss the shared queue is inspected under
    /// the lock, where delivery also moves every remaining pending message
    /// into the buffer in one step. Returns None exactly when the channel is
    /// closed: no live sender and nothing left to deliver — never while a
    /// buffered message remains. Blocks while senders remain and no message
    /// is pending.
    pub fn recv(&mut self) -> (received: Option<T>)
        ensures
            old(self).buffered().len() > 0 ==> received == Some(old(self).buffered()[0])
                && final(self).buffered() == old(self).buffered().skip(1),
            received is None ==> final(self).buffered().len() == 0 && old(
                self,
            ).buffered().len() == 0,
            final(self).channel_ref() == old(self).channel_ref(),
    {
        match self.buffer.pop_front() {
            Some(value) => {
                proof {
                    assert(self.buffer@ =~= old(self).buffered().skip(1));
                }
                Some(value)
            },
            None => lock_and_recv(&self.shared, &mut self.buffer),
        }
    }
}

/// Creates a channel: the shared state starts with an empty queue and a
/// sender count of one, and the two returned handles reference that one
/// shared state — what makes the pair a channel. The receiver's private
/// buffer starts empty.
pub fn channel<T>() -> (handles: (Sender<T>, Receiver<T>))
    ensures
        handles.0.channel_ref() == handles.1.channel_ref(),
        handles.1.buffered() == Seq::<T>::empty(),
{
    let inner = Inner::new();
    let shared = Shared { inner: Mutex::new(inner), is_available: Condvar::new() };
    let shared = Arc::new(shared);
    let sender = Sender { shared: share(&shared) };
    let receiver = Receiver { shared, buffer: VecDeque::new() };
    (sender, receiver)
}

} // verus!
