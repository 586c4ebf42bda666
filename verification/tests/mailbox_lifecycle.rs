use actor_core::mailbox::{Mailbox, NoSender, step_receive};

#[test]
fn fifo_order_across_clones() {
    // Three sender handles to the same mailbox; every tell appends to the one
    // shared queue, and receives come back in exactly the order told.
    let mut mb: Mailbox<&str> = Mailbox::new();
    mb.clone_ref();
    mb.clone_ref();
    assert_eq!(mb.sender_count(), 3);
    mb.tell("first");
    mb.tell("second");
    mb.tell("third");
    assert_eq!(mb.queued_len(), 3);
    assert_eq!(mb.receive(), Ok("first"));
    assert_eq!(mb.receive(), Ok("second"));
    assert_eq!(mb.receive(), Ok("third"));
}

#[test]
fn pending_receive_resolves_when_last_ref_dropped() {
    // An empty, open mailbox keeps the receiver waiting; dropping the last
    // sender handle makes the wait resolve with NoSender instead of hanging.
    let mut mb: Mailbox<u32> = Mailbox::new();
    assert_eq!(mb.receive_now(), None);
    mb.drop_ref();
    assert_eq!(mb.receive_now(), Some(Err(NoSender)));
}

#[test]
fn no_sender_is_terminal() {
    let mut mb: Mailbox<u32> = Mailbox::new();
    mb.drop_ref();
    assert_eq!(mb.receive(), Err(NoSender));
    assert_eq!(mb.receive(), Err(NoSender));
    assert_eq!(mb.receive(), Err(NoSender));
    assert_eq!(mb.receive_now(), Some(Err(NoSender)));
}

#[test]
fn tell_after_receiver_dropped_is_silent_noop() {
    let mut mb: Mailbox<u32> = Mailbox::new();
    mb.clone_ref();
    mb.drop_receiver();
    mb.tell(1);
    mb.tell(2);
    assert_eq!(mb.queued_len(), 0);
    assert_eq!(mb.sender_count(), 2);
    assert!(!mb.receiver_is_live());
}

#[test]
fn queued_messages_drain_before_closure() {
    // Messages enqueued before the last sender handle goes away stay
    // deliverable; NoSender is reported only once the queue is empty.
    let mut mb: Mailbox<u32> = Mailbox::new();
    mb.tell(10);
    mb.tell(20);
    mb.drop_ref();
    assert_eq!(mb.sender_count(), 0);
    assert_eq!(mb.receive(), Ok(10));
    assert_eq!(mb.receive(), Ok(20));
    assert_eq!(mb.receive(), Err(NoSender));
}

#[test]
fn clone_and_drop_counting() {
    let mut mb: Mailbox<u32> = Mailbox::new();
    assert_eq!(mb.sender_count(), 1);
    mb.clone_ref();
    mb.clone_ref();
    assert_eq!(mb.sender_count(), 3);
    mb.drop_ref();
    mb.drop_ref();
    assert_eq!(mb.sender_count(), 1);
    assert_eq!(mb.receive_now(), None);
    mb.drop_ref();
    assert_eq!(mb.sender_count(), 0);
    assert_eq!(mb.receive_now(), Some(Err(NoSender)));
}

#[test]
fn fresh_mailboxes_start_empty_and_open() {
    let mb: Mailbox<String> = Mailbox::new();
    assert_eq!(mb.queued_len(), 0);
    assert_eq!(mb.sender_count(), 1);
    assert!(mb.receiver_is_live());
}

#[test]
fn step_receive_maps_channel_events() {
    assert_eq!(step_receive(Some(5u32)), Ok(5));
    assert_eq!(step_receive::<u32>(None), Err(NoSender));
}
