//! An actor-model execution core: actors own FIFO inboxes of pending
//! messages, a registry holds the actors, and a dispatcher drains each
//! inbox in bounded batches so that no single actor can starve the rest.

pub mod actor;
pub mod dispatch;
pub mod example;
pub mod inbox;
pub mod names;
pub mod query;
