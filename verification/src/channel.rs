//! The channel handles: many clonable [`Sender`]s, one [`Receiver`],
//! created together by [`channel`].
//!
//! All shared state sits behind the lock in [`crate::sync::Shared`]; each
//! critical section runs one verified transition of
//! [`crate::state::Inner`].  The receiver additionally keeps a private
//! local buffer: when it drains the shared queue it takes the whole batch
//! in one critical section, and later calls are served from the buffer
//! without touching the lock at all.

use crate::state::delivered;
use crate::state::must_wait_state;
use crate::state::recv_step_spec;
use crate::state::Inner;
use crate::state::RecvStep;
use crate::sync::clone_shared;
use crate::sync::locked_update;
use crate::sync::signal;
use crate::sync::wait_then_update;
use crate::sync::Shared;
use std::collections::VecDeque;
use std::sync::Arc;
use vstd::prelude::*;

verus! {

/// A producing handle of a channel.  Any number may be alive at once;
/// each may be moved to its own thread.  The channel closes when the
/// last of them is dropped.
#[verifier::reject_recursive_types(T)]
pub struct Sender<T> {
    shared: Arc<Shared<T>>,
}

/// The single consuming handle of a channel, with its private buffer of
/// values already taken out of the shared queue, oldest at the front.
#[verifier::reject_recursive_types(T)]
pub struct Receiver<T> {
    shared: Arc<Shared<T>>,
    buffer: VecDeque<T>,
}

impl<T> Sender<T> {
    /// Whether two senders feed the same channel.
    pub closed spec fn feeds_same_channel_as(&self, other: &Sender<T>) -> bool {
        self.shared == other.shared
    }

    /// Queues `t` at the tail of the shared queue and wakes the receiver
    /// if it is blocked.  Never blocks and never fails: the queue is
    /// unbounded and no check is made that the receiver is still alive.
    ///
    /// What the critical section does to the shared state is the contract
    /// of [`Inner::enqueue`]: the value joins the tail of the queue, all
    /// earlier values and the sender count untouched.
    pub fn send(&mut self, t: T)
        ensures
            *final(self) == *old(self),
    {
        let f = move |i: Inner<T>| -> (out: (Inner<T>, ()))
            ensures
                out.0.queue@ == i.queue@.push(t) && out.0.senders == i.senders,
            { (i.enqueue(t), ()) };
        locked_update(&self.shared, f);
        signal(&self.shared);
    }
}

impl<T> Clone for Sender<T> {
    /// A new, fully independent handle feeding the same channel.  The
    /// critical section raises the live-sender count by one, per the
    /// contract of [`Inner::sender_added`], so the channel stays open
    /// until this handle too is dropped.
    fn clone(&self) -> (r: Self)
        ensures
            r.feeds_same_channel_as(self),
    {
        let f = |i: Inner<T>| -> (out: (Inner<T>, ()))
            ensures
                out.0.queue@ == i.queue@ && out.0.senders == (if i.senders == usize::MAX {
                    i.senders as int
                } else {
                    i.senders + 1
                }),
            { (i.sender_added(), ()) };
        locked_update(&self.shared, f);
        Sender { shared: clone_shared(&self.shared) }
    }
}

impl<T> Drop for Sender<T> {
    /// Lowers the live-sender count by one, per the contract of
    /// [`Inner::sender_removed`], and — exactly when this was the last
    /// sender — signals the receiver, so that a blocked `recv` wakes up,
    /// finds the queue empty with no sender alive, and reports closure.
    /// Taking the lock first serializes this against a receiver that is
    /// just deciding whether to wait.
    fn drop(&mut self)
        ensures
            *final(self) == *old(self),
        opens_invariants none
        no_unwind
    {
        let f = |i: Inner<T>| -> (out: (Inner<T>, usize))
            ensures
                out.0.queue@ == i.queue@ && out.0.senders == out.1 && out.1 == (
                if i.senders == 0 {
                    0int
                } else {
                    i.senders - 1
                }),
            { i.sender_removed() };
        let remaining = locked_update(&self.shared, f);
        if remaining == 0 {
            signal(&self.shared);
        }
    }
}

impl<T> View for Receiver<T> {
    type V = Seq<T>;

    /// A receiver is viewed as its private buffer: the values it can
    /// serve without taking the lock, oldest first.
    closed spec fn view(&self) -> Seq<T> {
        self.buffer@
    }
}

impl<T> Receiver<T> {
    /// Whether this receiver drains the channel that `s` feeds.
    pub closed spec fn is_paired_with(&self, s: &Sender<T>) -> bool {
        self.shared == s.shared
    }

    /// Takes the next value, blocking while the queue is empty and a
    /// sender is still alive; `None` means the channel is closed and
    /// drained, and every later call returns `None` again.
    ///
    /// Finishes a receive from the step its critical section returned:
    /// delivers the head of the observed queue and stages the whole batch
    /// behind it as the new local buffer, or reports closure.  This is
    /// where what came back from behind the lock is consumed, verified
    /// for every value of the step; [`Receiver::recv`] states its
    /// slow-path clause through [`delivered`].
    pub fn finish_recv(&mut self, step: RecvStep<T>) -> (r: Option<T>)
        requires
            old(self)@.len() == 0,
            !(step is Pending),
        ensures
            delivered(step, r, final(self)@),
    {
        match step {
            RecvStep::Ready(t, rest) => {
                self.buffer = rest;
                Some(t)
            },
            RecvStep::Closed => None,
            RecvStep::Pending => vstd::pervasive::unreached(),
        }
    }

    /// A buffered value is returned without touching the lock.  Otherwise
    /// the receiver blocks on the condition variable while the queue is
    /// empty and a sender remains; the critical section it wakes into
    /// runs [`Inner::recv_step`], and [`Receiver::finish_recv`] consumes
    /// the step: the oldest queued value is delivered and the batch
    /// behind it, in order, moves into the buffer — so the values that
    /// follow need no further lock — or closure is reported.  The
    /// slow-path clause says exactly that: some observed state, free of
    /// the wait condition, stepped by [`recv_step_spec`] to this result
    /// and this buffer.
    pub fn recv(&mut self) -> (r: Option<T>)
        ensures
            old(self)@.len() > 0 ==> r == Some(old(self)@[0]) && final(self)@ == old(self)@.skip(1),
            old(self)@.len() == 0 ==> exists|pre: Inner<T>, post: Inner<T>, step: RecvStep<T>|
                recv_step_spec(pre, post, step) && !must_wait_state(pre) && delivered(
                    step,
                    r,
                    final(self)@,
                ),
            old(self)@.len() == 0 && r is None ==> final(self)@.len() == 0,
    {
        if let Some(t) = self.buffer.pop_front() {
            return Some(t);
        }
        let f = |i: Inner<T>| -> (out: (Inner<T>, RecvStep<T>))
            ensures
                recv_step_spec(i, out.0, out.1),
            { i.recv_step() };
        let step = wait_then_update(&self.shared, f);
        proof {
            let (i0, i1) = choose|i0: Inner<T>, i1: Inner<T>|
                #[trigger] call_ensures(f, (i0,), (i1, step)) && !must_wait_state(i0);
            assert(recv_step_spec(i0, i1, step));
        }
        self.finish_recv(step)
    }

    /// One pull of the channel seen as a lazy sequence: the same as
    /// [`Receiver::recv`].  The sequence ends when `recv` first reports
    /// closure, and keeps reporting it afterwards.
    pub fn next(&mut self) -> (r: Option<T>)
        ensures
            old(self)@.len() > 0 ==> r == Some(old(self)@[0]) && final(self)@ == old(self)@.skip(1),
            old(self)@.len() == 0 ==> exists|pre: Inner<T>, post: Inner<T>, step: RecvStep<T>|
                recv_step_spec(pre, post, step) && !must_wait_state(pre) && delivered(
                    step,
                    r,
                    final(self)@,
                ),
            old(self)@.len() == 0 && r is None ==> final(self)@.len() == 0,
    {
        self.recv()
    }
}

/// Creates a channel: one `Shared` block, the first sender feeding it,
/// and the single receiver draining it, with an empty local buffer.
pub fn channel<T>() -> (out: (Sender<T>, Receiver<T>))
    ensures
        out.1@.len() == 0,
        out.1.is_paired_with(&out.0),
{
    let shared = Arc::new(
        Shared {
            inner: std::sync::Mutex::new(Inner::new()),
            available: std::sync::Condvar::new(),
        },
    );
    let sender = Sender { shared: clone_shared(&shared) };
    (sender, Receiver { shared, buffer: VecDeque::new() })
}

} // verus!
