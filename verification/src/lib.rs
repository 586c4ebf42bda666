//! A minimal actor-model core: mailboxes with FIFO delivery and a
//! sender/receiver lifecycle, plus completion outcomes for actor bodies.
//!
//! The mailbox is modelled as an explicit state machine: a queue of pending
//! messages, a count of live sender handles, and a flag for the receiving
//! side. Every transition carries a contract, and the laws that tie the
//! transitions together (FIFO order, terminal closure, independence of
//! distinct mailboxes) are proved in `laws`. The same interface bound to
//! tokio's channels and task spawning, for running actors concurrently,
//! stands in `tokio_backend`.

pub mod completion;
pub mod laws;
pub mod mailbox;
pub mod tokio_backend;
