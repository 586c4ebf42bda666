//! Completion outcomes for actor bodies: what a launch's completion handle
//! resolves to, and how a spawner's raw task outcome is classified.

use vstd::prelude::*;
use crate::mailbox::{Mailbox, spec_new};

verus! {

/// The eventual outcome of one actor body execution: either the body ran to
/// completion and this carries its own result (success or failure alike), or
/// the hosting task itself could not run the body to its conclusion.
#[derive(Debug, PartialEq, Eq)]
pub enum Completion<T> {
    /// The body ran to its own end; `T` is the body's own result.
    Finished(T),
    /// The concurrent task hosting the body was cancelled, aborted or
    /// rejected before the body could conclude. Never used for a failure the
    /// body itself reported.
    ExecutionFailure,
}

/// Decision step for a completion handle: classify what the execution
/// substrate reported for a spawned task. `Ok` means the body ran to its own
/// conclusion and its result is carried verbatim; any substrate error means
/// the body never concluded, which is kept distinct from a body failure.
pub fn settle<T, E>(outcome: Result<T, E>) -> (c: Completion<T>)
    ensures
        c == (match outcome {
            Ok(t) => Completion::Finished(t),
            Err(_) => Completion::<T>::ExecutionFailure,
        }),
{
    match outcome {
        Ok(t) => Completion::Finished(t),
        Err(_) => Completion::ExecutionFailure,
    }
}

/// An immediate-execution spawner, the in-process stand-in for a concurrent
/// execution substrate: it runs the body right here and now, so the
/// completion handle always carries the body's own result and an execution
/// failure can never arise.
pub fn spawn_immediate<T, F: FnOnce() -> T>(body: F) -> (c: Completion<T>)
    requires
        call_requires(body, ()),
    ensures
        exists|t: T| #[trigger] call_ensures(body, (), t) && c == Completion::Finished(t),
{
    Completion::Finished(body())
}

/// Launch an actor under the immediate-execution spawner: create a fresh
/// mailbox, hand it to the body as its context, run the body to its end, and
/// return the completion carrying the body's own result.
pub fn launch<M, T, F: FnOnce(Mailbox<M>) -> T>(body: F) -> (c: Completion<T>)
    requires
        forall|mb: Mailbox<M>| mb@ == spec_new::<M>() ==> #[trigger] call_requires(body, (mb,)),
    ensures
        exists|mb: Mailbox<M>, t: T|
            mb@ == spec_new::<M>() && #[trigger] call_ensures(body, (mb,), t) && c
                == Completion::Finished(t),
{
    let mb = Mailbox::new();
    proof {
        assert(call_requires(body, (mb,)));
    }
    let ghost gmb = mb;
    let t = body(mb);
    proof {
        assert(gmb@ == spec_new::<M>() && call_ensures(body, (gmb,), t));
    }
    Completion::Finished(t)
}

} // verus!
