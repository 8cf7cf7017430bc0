//! The state guarded by the channel's lock, and the verified transitions
//! that the channel performs on it while the lock is held.
//!
//! `Inner` is the value protected by the mutex: the FIFO queue of pending
//! values and the count of live `Sender` handles.  Every critical section
//! of the channel is one of the transition functions below; each has an
//! exact contract, so the protocol decisions (what a receive returns, when
//! the channel counts as closed, when a receiver must block) are verified
//! here, independently of the lock that serializes them.

use std::collections::VecDeque;
use vstd::prelude::*;

verus! {

/// The state a channel keeps behind its lock: the queued values, oldest
/// first, and the number of `Sender` handles still alive.
pub struct Inner<T> {
    /// Values sent but not yet taken by the receiver, oldest at the front.
    pub queue: VecDeque<T>,
    /// How many `Sender` handles are alive.  The channel is closed exactly
    /// when this reaches zero.
    pub senders: usize,
}

/// The outcome of one attempt by the receiver to take a value while
/// holding the lock.
pub enum RecvStep<T> {
    /// A value was queued: the oldest one, followed by the batch of all
    /// values that were queued behind it, in order.
    Ready(T, VecDeque<T>),
    /// The queue is empty and no sender is alive: no value will ever
    /// arrive again.
    Closed,
    /// The queue is empty but a sender is alive: the receiver must block
    /// until something changes.
    Pending,
}

/// How a finished receive relates to the step its critical section
/// returned: the head of the observed queue is delivered and the batch
/// behind it is staged as the new local buffer, or closure is reported
/// with the buffer left empty.  A `Pending` step finishes no receive.
pub open spec fn delivered<T>(step: RecvStep<T>, r: Option<T>, buf: Seq<T>) -> bool {
    match step {
        RecvStep::Ready(t, rest) => r == Some(t) && buf == rest@,
        RecvStep::Closed => r is None && buf.len() == 0,
        RecvStep::Pending => false,
    }
}

/// The states in which a receiver holding the lock must keep waiting:
/// nothing queued, yet a sender alive that may still deliver.
pub open spec fn must_wait_state<T>(i: Inner<T>) -> bool {
    i.queue@.len() == 0 && i.senders > 0
}

/// What one receive attempt does to the locked state: exactly one of the
/// three outcomes holds, decided by the state the receiver found.
pub open spec fn recv_step_spec<T>(pre: Inner<T>, post: Inner<T>, step: RecvStep<T>) -> bool {
    &&& post.senders == pre.senders
    &&& match step {
        RecvStep::Ready(t, rest) => {
            &&& pre.queue@.len() > 0
            &&& t == pre.queue@[0]
            &&& rest@ == pre.queue@.skip(1)
            &&& post.queue@.len() == 0
        },
        RecvStep::Closed => {
            &&& pre.queue@.len() == 0
            &&& pre.senders == 0
            &&& post.queue@ == pre.queue@
        },
        RecvStep::Pending => {
            &&& pre.queue@.len() == 0
            &&& pre.senders > 0
            &&& post.queue@ == pre.queue@
        },
    }
}

impl<T> Default for Inner<T> {
    /// An inert state: nothing queued, no sender alive.  It exists so the
    /// locked state can be moved out for the length of one verified
    /// transition; nothing ever observes it.
    fn default() -> (out: Self)
        ensures
            out.queue@.len() == 0,
            out.senders == 0,
    {
        Inner { queue: VecDeque::new(), senders: 0 }
    }
}

impl<T> Inner<T> {
    /// The state of a fresh channel: nothing queued, one sender alive.
    pub fn new() -> (out: Self)
        ensures
            out.queue@.len() == 0,
            out.senders == 1,
    {
        Inner { queue: VecDeque::new(), senders: 1 }
    }

    /// What a send does under the lock: the value joins the tail of the
    /// queue; nothing else changes.
    pub fn enqueue(self, t: T) -> (out: Self)
        ensures
            out.queue@ == self.queue@.push(t),
            out.senders == self.senders,
    {
        let mut this = self;
        this.queue.push_back(t);
        this
    }

    /// What a receive attempt does under the lock: take the oldest value
    /// together with the whole batch queued behind it, or report closure,
    /// or report that the receiver must block.
    pub fn recv_step(self) -> (out: (Self, RecvStep<T>))
        ensures
            recv_step_spec(self, out.0, out.1),
    {
        let mut this = self;
        match this.queue.pop_front() {
            Some(t) => {
                let mut rest: VecDeque<T> = VecDeque::new();
                std::mem::swap(&mut this.queue, &mut rest);
                (this, RecvStep::Ready(t, rest))
            },
            None => {
                if this.senders == 0 {
                    (this, RecvStep::Closed)
                } else {
                    (this, RecvStep::Pending)
                }
            },
        }
    }

    /// What cloning a sender does under the lock: one more live sender.
    /// The count saturates at `usize::MAX`, a bound no real process can
    /// reach, since each live handle occupies memory of its own.
    pub fn sender_added(self) -> (out: Self)
        ensures
            out.queue@ == self.queue@,
            out.senders == if self.senders == usize::MAX {
                self.senders as int
            } else {
                self.senders + 1
            },
    {
        let mut this = self;
        if this.senders < usize::MAX {
            this.senders = this.senders + 1;
        }
        this
    }

    /// What dropping a sender does under the lock: one less live sender.
    /// Returns the new count, so the caller can tell whether it was the
    /// last handle and must wake the receiver.
    pub fn sender_removed(self) -> (out: (Self, usize))
        ensures
            out.0.queue@ == self.queue@,
            out.0.senders == out.1,
            out.1 == if self.senders == 0 {
                0int
            } else {
                self.senders - 1
            },
    {
        let mut this = self;
        if this.senders > 0 {
            this.senders = this.senders - 1;
        }
        let remaining = this.senders;
        (this, remaining)
    }

    /// Whether a receiver that holds the lock must keep waiting: nothing
    /// is queued, yet a sender is alive and may still deliver.
    pub fn must_wait(&self) -> (b: bool)
        ensures
            b == must_wait_state(*self),
    {
        self.queue.len() == 0 && self.senders > 0
    }
}

/// Law: one receive attempt has exactly one of its three outcomes, and
/// the state the receiver found decides which.  In particular a receiver
/// blocks precisely while nothing is queued and a sender is still alive,
/// and the channel reports closure precisely when nothing is queued and
/// no sender is left.
pub proof fn lemma_recv_step_exhaustive<T>(pre: Inner<T>, post: Inner<T>, step: RecvStep<T>)
    requires
        recv_step_spec(pre, post, step),
    ensures
        (step is Ready) <==> pre.queue@.len() > 0,
        (step is Closed) <==> (pre.queue@.len() == 0 && pre.senders == 0),
        (step is Pending) <==> must_wait_state(pre),
{
}

/// Law: a successful receive attempt takes the whole queue, losing and
/// duplicating nothing and keeping the order: the queue the receiver
/// found is exactly the returned value followed by the batch staged for
/// the local buffer, and the shared queue is left empty, so the staged
/// values are served without touching the lock again.
pub proof fn lemma_ready_takes_whole_queue<T>(
    pre: Inner<T>,
    post: Inner<T>,
    t: T,
    rest: VecDeque<T>,
)
    requires
        recv_step_spec(pre, post, RecvStep::Ready(t, rest)),
    ensures
        pre.queue@ =~= seq![t] + rest@,
        pre.queue@.to_multiset() =~= rest@.to_multiset().insert(t),
        post.queue@.len() == 0,
{
    assert(pre.queue@ =~= seq![t] + rest@);
    lemma_head_plus_tail_multiset(pre.queue@, t, rest@);
}

/// The multiset of a sequence is its head plus the multiset of its tail.
proof fn lemma_head_plus_tail_multiset<T>(q: Seq<T>, t: T, rest: Seq<T>)
    requires
        q =~= seq![t] + rest,
    ensures
        q.to_multiset() =~= rest.to_multiset().insert(t),
    decreases rest.len(),
{
    broadcast use vstd::seq_lib::group_to_multiset_ensures;

    if rest.len() == 0 {
        assert(q =~= Seq::<T>::empty().push(t));
        assert(q.to_multiset() =~= Seq::<T>::empty().to_multiset().insert(t));
    } else {
        let last = rest.last();
        assert(q.drop_last() =~= seq![t] + rest.drop_last());
        lemma_head_plus_tail_multiset(q.drop_last(), t, rest.drop_last());
        assert(q =~= q.drop_last().push(last));
        assert(rest =~= rest.drop_last().push(last));
    }
}

/// Law: sending loses and duplicates nothing, and values of one sender
/// keep their order: each send appends exactly its own value at the
/// tail, so of two values sent one after the other, the earlier one
/// stands closer to the front of the queue than the later one.
pub proof fn lemma_send_keeps_order_and_values<T>(q: Seq<T>, a: T, b: T)
    ensures
        q.push(a).push(b) =~= q + seq![a, b],
        q.push(a).to_multiset() =~= q.to_multiset().insert(a),
{
    q.to_multiset_ensures();
}

/// The queue contents after the values of `sent` are enqueued in order,
/// one send at a time, onto a queue holding `q`.
pub open spec fn queue_after_sends<T>(q: Seq<T>, sent: Seq<T>) -> Seq<T>
    decreases sent.len(),
{
    if sent.len() == 0 {
        q
    } else {
        queue_after_sends(q.push(sent[0]), sent.skip(1))
    }
}

/// Law: first in, first out.  A run of sends appends exactly its values,
/// in sending order, behind whatever was already queued; since a receive
/// always takes the front of the queue and stages the remainder in
/// order, the receiver sees the values of one sender in the order that
/// sender sent them.
pub proof fn lemma_fifo<T>(q: Seq<T>, sent: Seq<T>)
    ensures
        queue_after_sends(q, sent) =~= q + sent,
    decreases sent.len(),
{
    if sent.len() == 0 {
        assert(queue_after_sends(q, sent) =~= q + sent);
    } else {
        lemma_fifo(q.push(sent[0]), sent.skip(1));
        assert(sent =~= seq![sent[0]] + sent.skip(1));
        assert(q.push(sent[0]) + sent.skip(1) =~= q + sent);
    }
}

/// Law: closure is terminal.  Once a receive attempt reports the channel
/// closed, the state it leaves behind reports closed again on every later
/// attempt: exhaustion is idempotent and values are never resurrected.
pub proof fn lemma_closed_is_terminal<T>(pre: Inner<T>, post: Inner<T>)
    requires
        recv_step_spec(pre, post, RecvStep::Closed),
    ensures
        recv_step_spec(post, post, RecvStep::Closed),
{
}

} // verus!
