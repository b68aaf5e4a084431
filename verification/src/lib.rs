//! The logic of an async wrapper around RocksDB, that does IO on a separate thread.
//!
//! The wrapper offers a limited API to communicate with RocksDB, to get the best performance
//! possible (most importantly, by batching operations): `multi_get` reads the values of a batch of
//! keys, and `multi_put` replaces (or deletes) the values of a batch of keys.
//!
//! Nothing here does IO. An [`RocksDBInstance`] makes the commands that are sent to the RocksDB
//! thread and takes its answers; a [`CoreLoop`] is what the thread does with them, as a function of
//! what happened to what is done next.
//!
//! - [`options`]: how an instance is configured, and what that asks of RocksDB.
//! - [`instance`]: the callers' side.
//! - [`core_loop`]: the thread's side.
//! - [`command`]: what the two sides and RocksDB say to each other.
//! - [`value`]: values and their bincode encoding.
//! - [`error`]: what can go wrong.
//! - [`store`], [`service`] and [`session`]: the laws of what is put and what is got, of one command
//!   and of a run of commands.
//! - [`laws`]: the laws of single calls, of what goes into a call and what comes out of it.

pub mod command;
pub mod core_loop;
pub mod error;
pub mod instance;
pub mod laws;
pub mod options;
pub mod search;
pub mod service;
pub mod session;
pub mod store;
pub mod value;

pub use crate::command::{Action, Command, Event, WriteOp};
pub use crate::core_loop::{CoreLoop, CoreState};
pub use crate::error::{Error, RocksDBError};
pub use crate::instance::{Request, RocksDBInstance};
pub use crate::options::{DBCompressionType, Options, RocksDBOptions, WriteOptions};
pub use crate::value::Value;
