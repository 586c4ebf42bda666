//! The mailbox state machine: one FIFO queue of messages, a count of live
//! sender handles (actor references), and the receiving side's liveness.
//!
//! One `Mailbox` value holds the whole shared state of one actor's mailbox.
//! The sender side's operations are `tell`, `clone_ref` and `drop_ref` (what
//! an actor reference does when it sends, is cloned, or is dropped); the
//! receiving side's operations are `receive`, `receive_now` and
//! `drop_receiver` (what the actor body's context does). Each operation's
//! contract states the transition over the mathematical view `MailboxView`.

use vstd::prelude::*;

verus! {

/// Terminal receive outcome: the queue is empty and no sender handle remains,
/// so no message can ever arrive again.
#[derive(Clone, Copy, Debug, PartialEq, Eq, Structural)]
pub struct NoSender;

/// Mathematical state of one mailbox.
#[verifier::ext_equal]
pub ghost struct MailboxView<M> {
    /// Pending messages, oldest first.
    pub messages: Seq<M>,
    /// Live sender handles; the mailbox is closed once this reaches zero.
    pub senders: nat,
    /// Whether the receiving side still exists.
    pub receiver_live: bool,
}

/// The state a fresh mailbox starts in: empty, open, with exactly one sender
/// handle bound to its write end.
pub open spec fn spec_new<M>() -> MailboxView<M> {
    MailboxView { messages: Seq::empty(), senders: 1, receiver_live: true }
}

/// The transition `tell` performs: append to the queue while the receiving
/// side exists; once it is gone, the message is silently dropped and the
/// state is untouched.
pub open spec fn spec_tell<M>(v: MailboxView<M>, m: M) -> MailboxView<M> {
    if v.receiver_live {
        MailboxView { messages: v.messages.push(m), senders: v.senders, receiver_live: true }
    } else {
        v
    }
}

/// The transition one poll of `receive` performs, paired with its outcome:
/// the oldest queued message if there is one; the terminal `NoSender` once
/// the queue is empty and no sender remains; otherwise `None`, meaning the
/// receiver keeps waiting.
pub open spec fn spec_receive_now<M>(v: MailboxView<M>) -> (Option<Result<M, NoSender>>, MailboxView<M>) {
    if v.messages.len() > 0 {
        (
            Some(Ok(v.messages[0])),
            MailboxView {
                messages: v.messages.drop_first(),
                senders: v.senders,
                receiver_live: v.receiver_live,
            },
        )
    } else if v.senders == 0 {
        (Some(Err(NoSender)), v)
    } else {
        (None, v)
    }
}

/// One actor's mailbox: the shared state behind its actor references and its
/// receiving context.
pub struct Mailbox<M> {
    queue: Vec<M>,
    senders: usize,
    receiver_live: bool,
}

impl<M> View for Mailbox<M> {
    type V = MailboxView<M>;

    closed spec fn view(&self) -> MailboxView<M> {
        MailboxView {
            messages: self.queue@,
            senders: self.senders as nat,
            receiver_live: self.receiver_live,
        }
    }
}

impl<M> Mailbox<M> {
    /// A closed mailbox: the last sender handle is gone, and the transition
    /// is one-way.
    pub open spec fn is_closed(&self) -> bool {
        self@.senders == 0
    }

    /// Whether a `receive` would resolve rather than suspend: a message is
    /// queued, or no sender remains.
    pub open spec fn resolvable(&self) -> bool {
        self@.messages.len() > 0 || self.is_closed()
    }

    /// Create a fresh, empty, open mailbox with one sender handle bound to
    /// it: what a mailbox factory hands out as an (actor reference, receiver)
    /// pair.
    pub fn new() -> (mb: Mailbox<M>)
        ensures
            mb@ == spec_new::<M>(),
    {
        Mailbox { queue: Vec::new(), senders: 1, receiver_live: true }
    }

    /// Send through an actor reference: enqueue while the receiving side
    /// exists, otherwise drop the message silently. Never blocks and never
    /// reports an error to the sender.
    pub fn tell(&mut self, msg: M)
        requires
            old(self)@.senders > 0,
        ensures
            final(self)@ == spec_tell(old(self)@, msg),
    {
        if self.receiver_live {
            self.queue.push(msg);
        }
    }

    /// Clone an actor reference: one more live sender handle to the same
    /// mailbox; nothing else changes.
    pub fn clone_ref(&mut self)
        requires
            old(self)@.senders > 0,
            old(self)@.senders < usize::MAX,
        ensures
            final(self)@.senders == old(self)@.senders + 1,
            final(self)@.messages == old(self)@.messages,
            final(self)@.receiver_live == old(self)@.receiver_live,
    {
        self.senders = self.senders + 1;
    }

    /// Drop an actor reference. Dropping the last one closes the mailbox;
    /// messages already queued stay deliverable.
    pub fn drop_ref(&mut self)
        requires
            old(self)@.senders > 0,
        ensures
            final(self)@.senders == old(self)@.senders - 1,
            final(self)@.messages == old(self)@.messages,
            final(self)@.receiver_live == old(self)@.receiver_live,
    {
        self.senders = self.senders - 1;
    }

    /// Drop the receiving side while sender handles may still exist: from
    /// here on every `tell` silently goes nowhere. No signal reaches the
    /// senders; this asymmetry is deliberate.
    pub fn drop_receiver(&mut self)
        requires
            old(self)@.receiver_live,
        ensures
            !final(self)@.receiver_live,
            final(self)@.messages == old(self)@.messages,
            final(self)@.senders == old(self)@.senders,
    {
        self.receiver_live = false;
    }

    /// Await the next message at a point where the wait resolves: yields the
    /// oldest queued message, or the terminal `NoSender` once the queue is
    /// empty and every sender handle is gone.
    pub fn receive(&mut self) -> (r: Result<M, NoSender>)
        requires
            old(self)@.receiver_live,
            old(self).resolvable(),
        ensures
            spec_receive_now(old(self)@).0 == Some(r),
            final(self)@ == spec_receive_now(old(self)@).1,
    {
        if self.queue.len() > 0 {
            let msg = self.queue.remove(0);
            proof {
                assert(self@ =~= spec_receive_now(old(self)@).1);
            }
            Ok(msg)
        } else {
            Err(NoSender)
        }
    }

    /// Poll for the next message without suspending: `None` means the
    /// receiver would keep waiting (the queue is empty but a sender remains).
    pub fn receive_now(&mut self) -> (r: Option<Result<M, NoSender>>)
        requires
            old(self)@.receiver_live,
        ensures
            r == spec_receive_now(old(self)@).0,
            final(self)@ == spec_receive_now(old(self)@).1,
    {
        if self.queue.len() > 0 {
            let msg = self.queue.remove(0);
            proof {
                assert(self@ =~= spec_receive_now(old(self)@).1);
            }
            Some(Ok(msg))
        } else if self.senders == 0 {
            Some(Err(NoSender))
        } else {
            None
        }
    }

    /// How many messages are waiting in the queue.
    pub fn queued_len(&self) -> (n: usize)
        ensures
            n == self@.messages.len(),
    {
        self.queue.len()
    }

    /// How many sender handles are still live.
    pub fn sender_count(&self) -> (n: usize)
        ensures
            n == self@.senders,
    {
        self.senders
    }

    /// Whether the receiving side still exists.
    pub fn receiver_is_live(&self) -> (b: bool)
        ensures
            b == self@.receiver_live,
    {
        self.receiver_live
    }
}

/// Decision step for a channel-backed receiver: the backend's channel either
/// yielded a message or reported that every sender is gone; map that event to
/// the receive outcome.
pub fn step_receive<M>(event: Option<M>) -> (r: Result<M, NoSender>)
    ensures
        r == (match event {
            Some(m) => Ok::<M, NoSender>(m),
            None => Err::<M, NoSender>(NoSender),
        }),
{
    match event {
        Some(m) => Ok(m),
        None => Err(NoSender),
    }
}

} // verus!
