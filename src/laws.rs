use vstd::prelude::*;

use crate::error::{RecvError, SendError, TryRecvError};
use crate::state::ChannelModel;

verus! {

/// One operation on the queue, in the order in which the lock serialised it.
pub enum Op<T> {
    /// A send of the value.
    Send(T),
    /// A receive; it takes a value only where one is queued.
    Recv,
}

/// The values sent by `ops`, in order.
pub open spec fn sent<T>(ops: Seq<Op<T>>) -> Seq<T>
    decreases ops.len(),
{
    if ops.len() == 0 {
        Seq::empty()
    } else {
        let rest = sent(ops.drop_last());
        match ops.last() {
            Op::Send(v) => rest.push(v),
            Op::Recv => rest,
        }
    }
}

/// The state after one operation, and the values it handed to a receiver.
pub open spec fn step<T>(m: ChannelModel<T>, op: Op<T>) -> (ChannelModel<T>, Seq<T>) {
    match op {
        Op::Send(v) => (m.after_send(v), Seq::empty()),
        Op::Recv => (
            m.after_recv(),
            if m.queue.len() > 0 {
                seq![m.queue[0]]
            } else {
                Seq::empty()
            },
        ),
    }
}

/// The state after `ops`, and the values handed to receivers, in order.
pub open spec fn run<T>(m: ChannelModel<T>, ops: Seq<Op<T>>) -> (ChannelModel<T>, Seq<T>)
    decreases ops.len(),
{
    if ops.len() == 0 {
        (m, Seq::empty())
    } else {
        let before = run(m, ops.drop_last());
        let after = step(before.0, ops.last());
        (after.0, before.1 + after.1)
    }
}

/// The values sent by two runs of operations, one after the other, are
/// those of the first followed by those of the second.
pub proof fn lemma_sent_concat<T>(a: Seq<Op<T>>, b: Seq<Op<T>>)
    ensures
        sent(a + b) == sent(a) + sent(b),
    decreases b.len(),
{
    if b.len() == 0 {
        assert(a + b =~= a);
        assert(sent(a) + sent(b) =~= sent(a));
    } else {
        assert((a + b).drop_last() =~= a + b.drop_last());
        assert((a + b).last() == b.last());
        lemma_sent_concat(a, b.drop_last());
        match b.last() {
            Op::Send(v) => {
                assert(sent(a) + sent(b.drop_last()).push(v) =~= (sent(a) + sent(
                    b.drop_last(),
                )).push(v));
            },
            Op::Recv => {},
        }
    }
}

/// Whatever the interleaving of sends and receives, while a receiver is
/// live the values handed out, followed by those still queued, are the
/// values that were queued, followed by the values sent, in send order.
/// Nothing is lost, duplicated or reordered; the counts stay as they were.
pub proof fn lemma_delivery_order<T>(m: ChannelModel<T>, ops: Seq<Op<T>>)
    requires
        m.receivers > 0,
    ensures
        run(m, ops).1 + run(m, ops).0.queue == m.queue + sent(ops),
        run(m, ops).0.senders == m.senders,
        run(m, ops).0.receivers == m.receivers,
    decreases ops.len(),
{
    if ops.len() == 0 {
        assert(Seq::<T>::empty() + m.queue =~= m.queue);
        assert(m.queue + Seq::<T>::empty() =~= m.queue);
    } else {
        lemma_delivery_order(m, ops.drop_last());
        let before = run(m, ops.drop_last());
        let out = before.1;
        let q = before.0.queue;
        match ops.last() {
            Op::Send(v) => {
                assert(out + Seq::<T>::empty() =~= out);
                assert(out + q.push(v) =~= (out + q).push(v));
            },
            Op::Recv => {
                if q.len() > 0 {
                    assert((out + seq![q[0]]) + q.drop_first() =~= out + q);
                } else {
                    assert(out + Seq::<T>::empty() =~= out);
                }
            },
        }
    }
}

/// FIFO: from an empty queue with a live receiver, once as many values
/// have been received as were sent, they are the sent values in send order.
pub proof fn lemma_fifo<T>(m: ChannelModel<T>, ops: Seq<Op<T>>)
    requires
        m.receivers > 0,
        m.queue.len() == 0,
        run(m, ops).1.len() == sent(ops).len(),
    ensures
        run(m, ops).1 == sent(ops),
        run(m, ops).0.queue.len() == 0,
{
    lemma_delivery_order(m, ops);
    assert(m.queue + sent(ops) =~= sent(ops));
    let out = run(m, ops).1;
    let q = run(m, ops).0.queue;
    assert((out + q).len() == out.len() + q.len());
    assert(out =~= (out + q).subrange(0, out.len() as int));
}

/// No loss under any interleaving of senders: from an empty queue with a
/// live receiver, once as many values have been received as were sent,
/// each sent value has been received exactly as often as it was sent.
pub proof fn lemma_no_loss<T>(m: ChannelModel<T>, ops: Seq<Op<T>>)
    requires
        m.receivers > 0,
        m.queue.len() == 0,
        run(m, ops).1.len() == sent(ops).len(),
    ensures
        run(m, ops).1.to_multiset() == sent(ops).to_multiset(),
        run(m, ops).0.queue.len() == 0,
{
    lemma_fifo(m, ops);
}

/// No value overtakes one sent earlier: a value sent while `k` values are
/// queued is the `k`-th value, counting from zero, handed out or queued
/// after any further operations.
pub proof fn lemma_no_overtaking<T>(m: ChannelModel<T>, v: T, rest: Seq<Op<T>>)
    requires
        m.receivers > 0,
    ensures
        ({
            let r = run(m, seq![Op::Send(v)] + rest);
            (r.1 + r.0.queue)[m.queue.len() as int] == v
        }),
{
    let ops = seq![Op::Send(v)] + rest;
    lemma_delivery_order(m, ops);
    lemma_sent_concat(seq![Op::Send(v)], rest);
    let one = seq![Op::Send(v)];
    assert(one.drop_last() =~= Seq::<Op<T>>::empty());
    assert(sent(one.drop_last()) == Seq::<T>::empty());
    assert(one.last() == Op::Send(v));
    assert(sent(one) =~= seq![v]);
    assert((m.queue + (seq![v] + sent(rest)))[m.queue.len() as int] == v);
}

/// Closing is final: once no sender is left, no operation opens the
/// channel again.
pub proof fn lemma_closed_stays_closed<T>(m: ChannelModel<T>, v: T)
    requires
        m.is_closed(),
    ensures
        m.after_send(v).is_closed(),
        m.after_recv().is_closed(),
        m.after_add_sender().is_closed(),
        m.after_remove_sender().is_closed(),
        m.after_add_receiver().is_closed(),
        m.after_remove_receiver().is_closed(),
{
}

/// Once the last sender is gone and the queue is empty, a receive does
/// not wait: it reports the channel disconnected.
pub proof fn lemma_disconnect_on_drop<T>(m: ChannelModel<T>)
    requires
        m.senders == 1,
        m.queue.len() == 0,
    ensures
        !m.after_remove_sender().would_block(),
        m.after_remove_sender().recv_result() == Err::<T, RecvError>(RecvError::Disconnected),
        m.after_remove_sender().try_recv_result() == Err::<T, TryRecvError>(
            TryRecvError::Disconnected,
        ),
{
}

/// A send to a channel on which a receiver waits ends the wait, and the
/// woken receive returns the value sent.
pub proof fn lemma_send_wakes_receiver<T>(m: ChannelModel<T>, v: T)
    requires
        m.would_block(),
        m.receivers > 0,
    ensures
        !m.after_send(v).would_block(),
        m.after_send(v).recv_result() == Ok::<T, RecvError>(v),
        m.after_send(v).after_recv() == m,
{
    assert(m.after_send(v).queue.drop_first() =~= m.queue);
}

/// With no receiver left a send changes nothing and hands its value back.
pub proof fn lemma_send_without_receiver<T>(m: ChannelModel<T>, v: T)
    requires
        m.receivers == 0,
    ensures
        m.send_result(v) == Err::<(), SendError<T>>(SendError::Disconnected(v)),
        m.send_result(v)->Err_0.value() == v,
        m.after_send(v) == m,
{
}

/// On an empty channel that a sender still holds open, a receive that
/// does not wait reports `Empty` and changes nothing.
pub proof fn lemma_try_recv_empty<T>(m: ChannelModel<T>)
    requires
        m.would_block(),
    ensures
        m.try_recv_result() == Err::<T, TryRecvError>(TryRecvError::Empty),
        m.after_recv() == m,
{
}

} // verus!
