//! The laws of single calls, stated of what goes into a call and what comes out of it.
//!
//! - [`thread`]: what the RocksDB thread does with each event.
//! - [`batches`]: what becomes of a batch on its way to RocksDB and back.
//! - [`serving`]: what serving a command comes to, key by key and put by put.
//! - [`instance`]: what a caller gets from an instance.
//! - [`options`], [`values`] and [`errors`]: what the options ask for, how values are stored, and
//!   what errors say.

pub mod batches;
pub mod errors;
pub mod instance;
pub mod options;
pub mod serving;
pub mod thread;
pub mod values;
