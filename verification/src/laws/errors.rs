//! What errors say and where they come from: the laws of [`Error`].

use vstd::prelude::*;

use crate::error::{Error, RocksDBError};

verus! {

/// An error of RocksDB is described by RocksDB's own message, unchanged.
pub proof fn rocksdb_speaks_for_itself(e: RocksDBError, text: String)
    requires
        call_ensures(Error::to_string, (&Error::RocksDB(e),), text),
    ensures
        text@ == e.message@,
{
}

/// A thread that is gone is described as such.
pub proof fn thread_gone_away_text(text: String)
    requires
        call_ensures(Error::to_string, (&Error::RocksDBThreadGoneAway,), text),
    ensures
        text@ == "RocksDB thread has been shut down or errored"@,
{
}

/// Every error of encoding is described in the same words.
pub proof fn encode_error_text(e: bincode::Error, text: String)
    requires
        call_ensures(Error::to_string, (&Error::EncodeError(e),), text),
    ensures
        text@ == "failed to encode value"@,
{
}

/// Every error of decoding is described in the same words.
pub proof fn decode_error_text(e: bincode::Error, text: String)
    requires
        call_ensures(Error::to_string, (&Error::DecodeError(e),), text),
    ensures
        text@ == "failed to decode value"@,
{
}

/// Every panic of a task is described in the same words.
pub proof fn panic_text(e: tokio::task::JoinError, text: String)
    requires
        call_ensures(Error::to_string, (&Error::TokioPanic(e),), text),
    ensures
        text@ == "tokio thread panicked"@,
{
}

/// An error of RocksDB is kept as it is.
pub proof fn rocksdb_errors_are_kept(e: RocksDBError, error: Error)
    requires
        call_ensures(<Error as From<RocksDBError>>::from, (e,), error),
    ensures
        error matches Error::RocksDB(kept) && kept == e,
{
}

/// An error of bincode is kept as it is, as an error of decoding.
pub proof fn bincode_errors_are_kept(e: bincode::Error, error: Error)
    requires
        call_ensures(<Error as From<bincode::Error>>::from, (e,), error),
    ensures
        error matches Error::DecodeError(kept) && kept == e,
{
}

/// The panic of a task is kept as it is.
pub proof fn panics_are_kept(e: tokio::task::JoinError, error: Error)
    requires
        call_ensures(<Error as From<tokio::task::JoinError>>::from, (e,), error),
    ensures
        error matches Error::TokioPanic(kept) && kept == e,
{
}

/// Every error can be described.
pub proof fn every_error_has_a_text(error: &Error)
    ensures
        call_requires(Error::to_string, (error,)),
{
}

} // verus!
