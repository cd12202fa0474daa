use std::collections::VecDeque;
use vstd::prelude::*;

verus! {

/// What one pass of the receiver's locked path decides: hand a message out,
/// report that the channel is closed, or wait for a sender to act.
pub enum RecvStep<T> {
    Deliver(T),
    Closed,
    Wait,
}

impl<T> RecvStep<T> {
    /// What a finished receive hands its caller: the delivered message, or
    /// None for the closure sentinel. A step that says to wait delivers
    /// nothing.
    pub fn into_received(self) -> (received: Option<T>)
        ensures
            received is Some <==> self is Deliver,
            self matches RecvStep::Deliver(value) ==> received == Some(value),
    {
        match self {
            RecvStep::Deliver(value) => Some(value),
            RecvStep::Closed => None,
            RecvStep::Wait => None,
        }
    }
}

/// The decision a receive takes from the state it sees: the oldest message of
/// its private buffer first, then the oldest message of the shared queue,
/// closure once neither holds a message and no sender remains, and waiting
/// otherwise.
pub open spec fn recv_outcome<T>(buffer: Seq<T>, pending: Seq<T>, senders: nat) -> RecvStep<T> {
    if buffer.len() > 0 {
        RecvStep::Deliver(buffer[0])
    } else if pending.len() > 0 {
        RecvStep::Deliver(pending[0])
    } else if senders == 0 {
        RecvStep::Closed
    } else {
        RecvStep::Wait
    }
}

/// The state every handle of one channel shares: the FIFO of messages no
/// receive has moved yet, and the count of live sender handles. Every access
/// happens inside the channel lock's critical section.
pub struct Inner<T> {
    queue: VecDeque<T>,
    num_sender: usize,
}

impl<T> Inner<T> {
    /// The messages sent and not yet moved toward the receiver, oldest first.
    pub closed spec fn pending(&self) -> Seq<T> {
        self.queue@
    }

    /// The number of live sender handles counted against this channel.
    pub closed spec fn senders(&self) -> nat {
        self.num_sender as nat
    }

    /// A fresh channel state: no message yet, one sender handle.
    pub fn new() -> (inner: Self)
        ensures
            inner.pending() == Seq::<T>::empty(),
            inner.senders() == 1,
    {
        Inner { queue: VecDeque::new(), num_sender: 1 }
    }

    /// Appends one message at the tail of the shared FIFO.
    pub fn enqueue(&mut self, message: T)
        ensures
            final(self).pending() == old(self).pending().push(message),
            final(self).senders() == old(self).senders(),
    {
        self.queue.push_back(message);
    }

    /// Counts one more live sender handle.
    pub fn sender_arrived(&mut self)
        requires
            old(self).senders() < usize::MAX,
        ensures
            final(self).senders() == old(self).senders() + 1,
            final(self).pending() == old(self).pending(),
    {
        self.num_sender = self.num_sender + 1;
    }

    /// Counts one sender handle as gone and reports whether it was the last.
    pub fn sender_departed(&mut self) -> (last: bool)
        requires
            old(self).senders() >= 1,
        ensures
            final(self).senders() == old(self).senders() - 1,
            final(self).pending() == old(self).pending(),
            last <==> final(self).senders() == 0,
    {
        self.num_sender = self.num_sender - 1;
        self.num_sender == 0
    }

    /// One pass of the receiver's locked path, entered with a drained private
    /// buffer: pop the oldest shared message and move every later one into the
    /// buffer in the same step, or report closure, or ask the caller to wait.
    pub fn recv_step(&mut self, buffer: &mut VecDeque<T>) -> (step: RecvStep<T>)
        requires
            old(buffer)@.len() == 0,
        ensures
            step == recv_outcome(old(buffer)@, old(self).pending(), old(self).senders()),
            final(self).senders() == old(self).senders(),
            step is Deliver ==> final(self).pending() == Seq::<T>::empty() && final(buffer)@
                == old(self).pending().skip(1),
            !(step is Deliver) ==> final(self).pending() == old(self).pending()
                && final(buffer)@ == old(buffer)@,
    {
        match self.queue.pop_front() {
            Some(value) => {
                if self.queue.len() > 0 {
                    core::mem::swap(&mut self.queue, buffer);
                }
                proof {
                    assert(self.queue@ =~= Seq::<T>::empty());
                    assert(buffer@ =~= old(self).pending().skip(1));
                }
                RecvStep::Deliver(value)
            },
            None => {
                if self.num_sender == 0 {
                    RecvStep::Closed
                } else {
                    RecvStep::Wait
                }
            },
        }
    }
}

} // verus!
