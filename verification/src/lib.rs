//! An in-memory publish/subscribe broker core.
//!
//! Each store is owned by one actor and changed only by the commands it is
//! handed, one at a time. The handlers decide which command goes to which
//! store and what follows from each reply; the shell around this library
//! moves the commands and replies between tasks.

pub mod client;
pub mod frame;
pub mod outbound;
pub mod table;
pub mod collection;
pub mod command;
pub mod actor;
pub mod store;
pub mod serialize;
pub mod handler;
pub mod ws;
