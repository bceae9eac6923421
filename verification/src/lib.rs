//! An in-process actor runtime: per-actor bounded mailboxes with a skip
//! cursor, a shared run queue of ready actors, and the dispatch rules that
//! drive one handler turn at a time per actor.

pub mod actors;

pub mod mailbox;
pub mod pooled_queue;
