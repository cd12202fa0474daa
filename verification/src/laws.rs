use crate::state::RecvStep;
use crate::state::recv_outcome;
use vstd::prelude::*;

verus! {

/// One channel as the logic sees it across a whole run: every message that
/// ever entered the shared queue in lock order, every message the receiver
/// has taken, the two queues holding the rest — the receiver's private buffer
/// in front of the shared queue — and the count of live sender handles.
pub struct ChannelModel<T> {
    pub sent: Seq<T>,
    pub taken: Seq<T>,
    pub buffer: Seq<T>,
    pub pending: Seq<T>,
    pub senders: nat,
}

/// The messages sent and not yet taken, oldest first: the receiver's private
/// buffer holds the older ones, the shared queue the newer.
pub open spec fn outstanding<T>(m: ChannelModel<T>) -> Seq<T> {
    m.buffer + m.pending
}

/// A channel state is coherent when what was taken, followed by what is still
/// outstanding, is exactly what was sent — nothing lost, nothing duplicated,
/// nothing reordered.
pub open spec fn coherent<T>(m: ChannelModel<T>) -> bool {
    m.taken + outstanding(m) == m.sent
}

/// The state a channel starts in: nothing sent, nothing taken, one sender.
pub open spec fn initial_model<T>() -> ChannelModel<T> {
    ChannelModel {
        sent: Seq::empty(),
        taken: Seq::empty(),
        buffer: Seq::empty(),
        pending: Seq::empty(),
        senders: 1,
    }
}

/// The state after one send: the message takes the tail of the shared queue,
/// in the position its critical section won.
pub open spec fn after_send<T>(m: ChannelModel<T>, message: T) -> ChannelModel<T> {
    ChannelModel { sent: m.sent.push(message), pending: m.pending.push(message), ..m }
}

/// The state after cloning a sender handle: one more is counted.
pub open spec fn after_clone<T>(m: ChannelModel<T>) -> ChannelModel<T> {
    ChannelModel { senders: m.senders + 1, ..m }
}

/// The state after dropping a sender handle: one fewer is counted.
pub open spec fn after_drop<T>(m: ChannelModel<T>) -> ChannelModel<T>
    recommends
        m.senders >= 1,
{
    ChannelModel { senders: (m.senders - 1) as nat, ..m }
}

/// What one receive returns in a given state: the oldest buffered message
/// without the lock, else the oldest pending one under it, else closure when
/// no sender remains, else a wait.
pub open spec fn recv_result<T>(m: ChannelModel<T>) -> RecvStep<T> {
    recv_outcome(m.buffer, m.pending, m.senders)
}

/// The state after one receive: a delivered message moves to the taken
/// sequence, and a message delivered out of the shared queue drags the whole
/// remainder of that queue into the receiver's buffer in the same critical
/// section. A receive that delivers nothing changes nothing.
pub open spec fn after_recv<T>(m: ChannelModel<T>) -> ChannelModel<T> {
    if m.buffer.len() > 0 {
        ChannelModel { taken: m.taken.push(m.buffer[0]), buffer: m.buffer.skip(1), ..m }
    } else if m.pending.len() > 0 {
        ChannelModel {
            taken: m.taken.push(m.pending[0]),
            buffer: m.pending.skip(1),
            pending: Seq::empty(),
            ..m
        }
    } else {
        m
    }
}

/// A fresh channel is coherent.
pub proof fn lemma_initial_coherent<T>()
    ensures
        coherent(initial_model::<T>()),
{
    assert(outstanding(initial_model::<T>()) =~= Seq::<T>::empty());
    assert(initial_model::<T>().taken + Seq::<T>::empty() =~= Seq::<T>::empty());
}

/// Sending keeps a channel coherent: the message joins both the send history
/// and the tail of the outstanding messages, and nothing else moves.
pub proof fn lemma_send_coherent<T>(m: ChannelModel<T>, message: T)
    requires
        coherent(m),
    ensures
        coherent(after_send(m, message)),
        after_send(m, message).sent == m.sent.push(message),
        after_send(m, message).taken == m.taken,
        outstanding(after_send(m, message)) == outstanding(m).push(message),
{
    assert(outstanding(after_send(m, message)) =~= outstanding(m).push(message));
    assert(m.taken + outstanding(m).push(message) =~= (m.taken + outstanding(m)).push(message));
}

/// First in, first out: in a coherent state with a message outstanding, a
/// receive delivers exactly the next message in send order — the one at
/// position |taken| of the send history — and leaves the state coherent with
/// that message appended to the taken sequence. So across any run, messages
/// are taken in exactly the order their sends entered the shared queue, and
/// each sender's own messages arrive in the order it sent them.
pub proof fn lemma_fifo<T>(m: ChannelModel<T>)
    requires
        coherent(m),
        outstanding(m).len() > 0,
    ensures
        m.taken.len() < m.sent.len(),
        recv_result(m) == RecvStep::Deliver(m.sent[m.taken.len() as int]),
        coherent(after_recv(m)),
        after_recv(m).sent == m.sent,
        after_recv(m).taken == m.taken.push(m.sent[m.taken.len() as int]),
{
    let next = outstanding(m)[0];
    assert(m.sent[m.taken.len() as int] == next) by {
        assert((m.taken + outstanding(m))[m.taken.len() as int] == next);
    }
    if m.buffer.len() > 0 {
        assert(next == m.buffer[0]);
        assert(outstanding(after_recv(m)) =~= outstanding(m).skip(1));
    } else {
        assert(next == m.pending[0]);
        assert(outstanding(after_recv(m)) =~= outstanding(m).skip(1));
    }
    assert(m.taken.push(next) + outstanding(m).skip(1) =~= m.taken + outstanding(m));
}

/// Conservation: in a coherent state where a receive reports closure,
/// everything ever sent has already been taken — exactly once each and in
/// order. A run with some number of successful sends therefore sees exactly
/// that number of successful receives before closure is observed.
pub proof fn lemma_conservation<T>(m: ChannelModel<T>)
    requires
        coherent(m),
        recv_result(m) is Closed,
    ensures
        m.taken == m.sent,
        m.taken.len() == m.sent.len(),
{
    assert(m.taken + outstanding(m) =~= m.taken);
}

/// Immediate closure: with no live sender, nothing pending and nothing
/// buffered, a receive reports closure at once — it neither waits nor
/// changes any state.
pub proof fn lemma_immediate_closure<T>(m: ChannelModel<T>)
    requires
        m.senders == 0,
        m.pending.len() == 0,
        m.buffer.len() == 0,
    ensures
        recv_result(m) is Closed,
        after_recv(m) == m,
{
}

/// Drain before close: even with no sender left, a receive delivers the
/// oldest outstanding message as long as one remains — it neither waits nor
/// reports closure — and reports closure exactly when the channel is drained.
/// So every remaining message comes out, in order, before the sentinel.
pub proof fn lemma_drain_before_close<T>(m: ChannelModel<T>)
    requires
        m.senders == 0,
    ensures
        outstanding(m).len() > 0 ==> recv_result(m) == RecvStep::Deliver(outstanding(m)[0]),
        recv_result(m) is Closed <==> outstanding(m).len() == 0,
        !(recv_result(m) is Wait),
{
}

/// Clone accounting: cloning a sender and later dropping one clone leaves the
/// channel exactly as it was; and while any sender handle is live, a receive
/// never reports closure. Only dropping the last live sender moves the
/// channel toward closure. Neither handle operation moves a message, so both
/// keep the channel coherent.
pub proof fn lemma_clone_accounting<T>(m: ChannelModel<T>)
    requires
        m.senders >= 1,
    ensures
        after_drop(after_clone(m)) == m,
        !(recv_result(m) is Closed),
        coherent(m) ==> coherent(after_clone(m)),
        coherent(m) ==> coherent(after_drop(m)),
{
}

} // verus!
