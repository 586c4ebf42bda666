//! The laws that tie the mailbox transitions together, each stated over the
//! mathematical views and proved once for every message type.

use vstd::prelude::*;
use crate::mailbox::{MailboxView, NoSender, spec_new, spec_receive_now, spec_tell};

verus! {

/// The state after a whole sequence of `tell`s, oldest first.
pub open spec fn spec_tell_all<M>(v: MailboxView<M>, msgs: Seq<M>) -> MailboxView<M>
    decreases msgs.len(),
{
    if msgs.len() == 0 {
        v
    } else {
        spec_tell_all(spec_tell(v, msgs[0]), msgs.drop_first())
    }
}

/// Telling a sequence of messages while the receiving side exists appends
/// them, in order, after whatever was already queued; it touches nothing
/// else.
pub proof fn lemma_tell_all_appends<M>(v: MailboxView<M>, msgs: Seq<M>)
    requires
        v.receiver_live,
    ensures
        spec_tell_all(v, msgs).messages == v.messages + msgs,
        spec_tell_all(v, msgs).senders == v.senders,
        spec_tell_all(v, msgs).receiver_live,
    decreases msgs.len(),
{
    if msgs.len() == 0 {
        assert(v.messages + msgs =~= v.messages);
    } else {
        lemma_tell_all_appends(spec_tell(v, msgs[0]), msgs.drop_first());
        assert(v.messages.push(msgs[0]) + msgs.drop_first() =~= v.messages + msgs);
    }
}

/// The messages that `k` successive resolving receives yield, oldest first.
pub open spec fn spec_drain<M>(v: MailboxView<M>, k: nat) -> Seq<M>
    decreases k,
{
    if k == 0 {
        Seq::empty()
    } else {
        let (out, next) = spec_receive_now(v);
        match out {
            Some(Ok(m)) => seq![m] + spec_drain(next, (k - 1) as nat),
            _ => Seq::empty(),
        }
    }
}

/// Draining `k` messages yields exactly the first `k` queued ones, in queue
/// order.
pub proof fn lemma_drain_prefix<M>(v: MailboxView<M>, k: nat)
    requires
        k <= v.messages.len(),
    ensures
        spec_drain(v, k) == v.messages.take(k as int),
    decreases k,
{
    if k == 0 {
        assert(v.messages.take(0) =~= Seq::<M>::empty());
    } else {
        let next = spec_receive_now(v).1;
        lemma_drain_prefix(next, (k - 1) as nat);
        assert(seq![v.messages[0]] + v.messages.drop_first().take(k as int - 1) =~= v.messages.take(
            k as int,
        ));
    }
}

/// FIFO: every sequence of messages told to an idle mailbox — through any of
/// its sender handles, in any interleaving, since all handles append to the
/// one shared queue — is received back in exactly the order it was told.
pub proof fn lemma_fifo<M>(v: MailboxView<M>, msgs: Seq<M>)
    requires
        v.receiver_live,
        v.messages.len() == 0,
    ensures
        spec_drain(spec_tell_all(v, msgs), msgs.len()) == msgs,
{
    lemma_tell_all_appends(v, msgs);
    let w = spec_tell_all(v, msgs);
    assert(w.messages =~= msgs);
    lemma_drain_prefix(w, msgs.len());
    assert(msgs.take(msgs.len() as int) =~= msgs);
}

/// `NoSender` is terminal and idempotent: once the queue is empty and every
/// sender handle is gone, a receive reports `NoSender`, leaves the state
/// untouched, and every later receive reports the same.
pub proof fn lemma_no_sender_terminal<M>(v: MailboxView<M>)
    requires
        v.senders == 0,
        v.messages.len() == 0,
    ensures
        spec_receive_now(v).0 == Some(Err::<M, NoSender>(NoSender)),
        spec_receive_now(v).1 == v,
        spec_receive_now(spec_receive_now(v).1) == spec_receive_now(v),
{
}

/// Queued messages outlive closure: even with every sender handle gone, a
/// receive still yields the oldest queued message; `NoSender` is reported
/// only after the queue has drained.
pub proof fn lemma_drains_before_closure<M>(v: MailboxView<M>)
    requires
        v.senders == 0,
        v.messages.len() > 0,
    ensures
        spec_receive_now(v).0 == Some(Ok::<M, NoSender>(v.messages[0])),
{
}

/// A `tell` after the receiving side is gone is a silent no-op: nothing is
/// enqueued, no error reaches the sender, and the mailbox is not revived.
pub proof fn lemma_tell_after_close<M>(v: MailboxView<M>, m: M)
    requires
        !v.receiver_live,
    ensures
        spec_tell(v, m) == v,
{
}

/// Once no sender remains, a pending receive resolves at once: polling never
/// answers "keep waiting" again.
pub proof fn lemma_receive_resolves_when_abandoned<M>(v: MailboxView<M>)
    requires
        v.senders == 0,
    ensures
        spec_receive_now(v).0 is Some,
{
}

/// Closure is one-way: no transition a closed mailbox still admits brings a
/// sender handle back.
pub proof fn lemma_closed_is_permanent<M>(v: MailboxView<M>, m: M)
    requires
        v.senders == 0,
    ensures
        spec_tell(v, m).senders == 0,
        spec_receive_now(v).1.senders == 0,
{
}

/// One send in an interleaved trace against two independent mailboxes.
pub enum TraceTell<A, B> {
    /// A message told to the first mailbox.
    First(A),
    /// A message told to the second mailbox.
    Second(B),
}

/// Run an interleaved trace of sends against a pair of mailboxes.
pub open spec fn spec_run_pair<A, B>(
    a: MailboxView<A>,
    b: MailboxView<B>,
    trace: Seq<TraceTell<A, B>>,
) -> (MailboxView<A>, MailboxView<B>)
    decreases trace.len(),
{
    if trace.len() == 0 {
        (a, b)
    } else {
        match trace[0] {
            TraceTell::First(m) => spec_run_pair(spec_tell(a, m), b, trace.drop_first()),
            TraceTell::Second(m) => spec_run_pair(a, spec_tell(b, m), trace.drop_first()),
        }
    }
}

/// The messages a trace tells to the first mailbox, in trace order.
pub open spec fn spec_firsts<A, B>(trace: Seq<TraceTell<A, B>>) -> Seq<A>
    decreases trace.len(),
{
    if trace.len() == 0 {
        Seq::empty()
    } else {
        match trace[0] {
            TraceTell::First(m) => seq![m] + spec_firsts(trace.drop_first()),
            TraceTell::Second(_) => spec_firsts(trace.drop_first()),
        }
    }
}

/// The messages a trace tells to the second mailbox, in trace order.
pub open spec fn spec_seconds<A, B>(trace: Seq<TraceTell<A, B>>) -> Seq<B>
    decreases trace.len(),
{
    if trace.len() == 0 {
        Seq::empty()
    } else {
        match trace[0] {
            TraceTell::First(_) => spec_seconds(trace.drop_first()),
            TraceTell::Second(m) => seq![m] + spec_seconds(trace.drop_first()),
        }
    }
}

/// Two mailboxes never observe each other's messages: an interleaved trace
/// leaves each mailbox exactly as its own sends alone would have, whatever
/// was sent to the other in between.
pub proof fn lemma_mailboxes_independent<A, B>(
    a: MailboxView<A>,
    b: MailboxView<B>,
    trace: Seq<TraceTell<A, B>>,
)
    ensures
        spec_run_pair(a, b, trace).0 == spec_tell_all(a, spec_firsts(trace)),
        spec_run_pair(a, b, trace).1 == spec_tell_all(b, spec_seconds(trace)),
    decreases trace.len(),
{
    if trace.len() == 0 {
    } else {
        let rest = trace.drop_first();
        match trace[0] {
            TraceTell::First(m) => {
                lemma_mailboxes_independent(spec_tell(a, m), b, rest);
                let msgs = spec_firsts(trace);
                assert(msgs[0] == m);
                assert(msgs.drop_first() =~= spec_firsts(rest));
            },
            TraceTell::Second(m) => {
                lemma_mailboxes_independent(a, spec_tell(b, m), rest);
                let msgs = spec_seconds(trace);
                assert(msgs[0] == m);
                assert(msgs.drop_first() =~= spec_seconds(rest));
            },
        }
    }
}

} // verus!
