use actor_core::completion::{launch, settle, spawn_immediate, Completion};
use actor_core::mailbox::{Mailbox, NoSender};

#[test]
fn launch_and_reply() {
    // Actor A receives a name plus a reply address and answers with a
    // greeting; actor B exists solely to capture one reply. The reply
    // address is carried inside A's message as an index into the reply
    // mailboxes held by the driver.
    let mut a: Mailbox<(String, usize)> = Mailbox::new();
    let mut b: Mailbox<String> = Mailbox::new();

    a.tell(("Fred".to_string(), 0));
    // One turn of A's body: wait for a message, then greet the reply address.
    let (name, reply_to) = a.receive().unwrap();
    assert_eq!(reply_to, 0);
    b.tell(format!("Hello {}!", name));
    // B's body captures exactly one reply.
    let captured = spawn_immediate(move || b.receive());
    assert_eq!(captured, Completion::Finished(Ok("Hello Fred!".to_string())));

    let mut b2: Mailbox<String> = Mailbox::new();
    a.tell(("Barney".to_string(), 0));
    let (name, _) = a.receive().unwrap();
    b2.tell(format!("Hello {}!", name));
    assert_eq!(b2.receive(), Ok("Hello Barney!".to_string()));
}

#[test]
fn dropped_last_ref_is_body_failure_not_execution_failure() {
    // The body is waiting in receive when the only sender handle goes away:
    // the body sees NoSender, reports it as its own failure, and the
    // completion handle carries that failure — not an execution failure.
    let mut mb: Mailbox<u32> = Mailbox::new();
    mb.drop_ref();
    let handle = spawn_immediate(move || -> Result<u32, NoSender> { Err(mb.receive().unwrap_err()) });
    assert_eq!(handle, Completion::Finished(Err(NoSender)));
    assert!(!matches!(handle, Completion::ExecutionFailure));
}

#[test]
fn independent_launches_do_not_share_messages() {
    // Interleaved traffic against two mailboxes: each receives exactly its
    // own messages, in its own order.
    let mut a: Mailbox<&str> = Mailbox::new();
    let mut b: Mailbox<u32> = Mailbox::new();
    a.tell("to a");
    b.tell(1);
    a.tell("to a again");
    b.tell(2);
    assert_eq!(a.queued_len(), 2);
    assert_eq!(b.queued_len(), 2);
    assert_eq!(a.receive(), Ok("to a"));
    assert_eq!(b.receive(), Ok(1));
    assert_eq!(a.receive(), Ok("to a again"));
    assert_eq!(b.receive(), Ok(2));
    assert_eq!(a.receive_now(), None);
    assert_eq!(b.receive_now(), None);
}

#[test]
fn completion_carries_body_value() {
    // A body that computes its own value after one message: the handle
    // resolves to exactly that value, distinguishable from a NoSender-driven
    // failure and from an execution failure.
    let mut mb: Mailbox<u32> = Mailbox::new();
    mb.tell(7);
    let handle = spawn_immediate(move || -> Result<u32, NoSender> {
        let _ = mb.receive()?;
        Ok(42)
    });
    assert_eq!(handle, Completion::Finished(Ok(42)));
    assert_ne!(handle, Completion::Finished(Err(NoSender)));
    assert!(!matches!(handle, Completion::ExecutionFailure));
}

#[test]
fn settle_keeps_body_result_verbatim() {
    let ok: Result<Result<u32, NoSender>, String> = Ok(Ok(42));
    assert_eq!(settle(ok), Completion::Finished(Ok(42)));
    let body_failure: Result<Result<u32, NoSender>, String> = Ok(Err(NoSender));
    assert_eq!(settle(body_failure), Completion::Finished(Err(NoSender)));
}

#[test]
fn settle_reports_execution_failure_distinctly() {
    let aborted: Result<u32, &str> = Err("task aborted");
    assert_eq!(settle(aborted), Completion::ExecutionFailure);
    assert_ne!(settle(aborted), Completion::Finished(0));
}

#[test]
fn launch_hands_body_a_fresh_mailbox() {
    let handle = launch(|mut mb: Mailbox<u32>| {
        let waiting = mb.queued_len();
        mb.tell(9);
        (waiting, mb.receive())
    });
    assert_eq!(handle, Completion::Finished((0, Ok(9))));
}
