//! The errors of a [`RocksDBInstance`](crate::instance::RocksDBInstance).

use vstd::prelude::*;

verus! {

/// `bincode::ErrorKind`: why a value could not be encoded or decoded. Opaque here; `bincode::Error`
/// is a box around it.
#[verifier::external_type_specification]
#[verifier::external_body]
pub struct ExBincodeErrorKind(bincode::ErrorKind);

/// `tokio::task::JoinError`: how a spawned task ended without a result. Opaque here.
#[verifier::external_type_specification]
#[verifier::external_body]
pub struct ExJoinError(tokio::task::JoinError);

/// An error reported by RocksDB: the message that it gives.
#[derive(Debug)]
pub struct RocksDBError {
    /// The message, as RocksDB words it.
    pub message: String,
}

impl View for RocksDBError {
    type V = Seq<char>;

    open spec fn view(&self) -> Seq<char> {
        self.message@
    }
}

/// An error using this RocksDB wrapper.
#[derive(Debug)]
pub enum Error {
    /// An error from the underlying RocksDB library.
    RocksDB(RocksDBError),
    /// Error when using the instance after RocksDB has errored
    /// or been shut down.
    RocksDBThreadGoneAway,
    /// Error encoding a value that is to be written.
    EncodeError(bincode::Error),
    /// Error decoding a value previously written.
    DecodeError(bincode::Error),
    /// A tokio thread used by the implementation panicked.
    TokioPanic(tokio::task::JoinError),
}

/// What an [`Error`] is, with the details of the outside libraries' own error types left out.
pub enum ErrorView {
    /// RocksDB failed with this message.
    RocksDB(Seq<char>),
    /// The RocksDB thread is gone.
    RocksDBThreadGoneAway,
    /// A value that is to be written could not be encoded.
    EncodeError,
    /// A value previously written could not be decoded.
    DecodeError,
    /// A task panicked.
    TokioPanic,
}

impl ErrorView {
    /// The text that describes the error to a user.
    pub open spec fn message(self) -> Seq<char> {
        match self {
            ErrorView::RocksDB(message) => message,
            ErrorView::RocksDBThreadGoneAway => "RocksDB thread has been shut down or errored"@,
            ErrorView::EncodeError => "failed to encode value"@,
            ErrorView::DecodeError => "failed to decode value"@,
            ErrorView::TokioPanic => "tokio thread panicked"@,
        }
    }
}

impl View for Error {
    type V = ErrorView;

    open spec fn view(&self) -> ErrorView {
        match *self {
            Error::RocksDB(e) => ErrorView::RocksDB(e@),
            Error::RocksDBThreadGoneAway => ErrorView::RocksDBThreadGoneAway,
            Error::EncodeError(_) => ErrorView::EncodeError,
            Error::DecodeError(_) => ErrorView::DecodeError,
            Error::TokioPanic(_) => ErrorView::TokioPanic,
        }
    }
}

impl Error {
    /// The text that describes the error to a user. An error of RocksDB speaks for itself.
    pub fn to_string(&self) -> (text: String)
        ensures
            text@ == self@.message(),
    {
        match self {
            Error::RocksDB(e) => e.message.clone(),
            Error::RocksDBThreadGoneAway => "RocksDB thread has been shut down or errored".to_owned(),
            Error::EncodeError(_) => "failed to encode value".to_owned(),
            Error::DecodeError(_) => "failed to decode value".to_owned(),
            Error::TokioPanic(_) => "tokio thread panicked".to_owned(),
        }
    }
}

impl From<RocksDBError> for Error {
    fn from(e: RocksDBError) -> (error: Error) {
        Error::RocksDB(e)
    }
}

impl vstd::std_specs::convert::FromSpecImpl<RocksDBError> for Error {
    open spec fn obeys_from_spec() -> bool {
        true
    }

    open spec fn from_spec(e: RocksDBError) -> Error {
        Error::RocksDB(e)
    }
}

impl From<bincode::Error> for Error {
    fn from(e: bincode::Error) -> (error: Error) {
        Error::DecodeError(e)
    }
}

impl vstd::std_specs::convert::FromSpecImpl<bincode::Error> for Error {
    open spec fn obeys_from_spec() -> bool {
        true
    }

    open spec fn from_spec(e: bincode::Error) -> Error {
        Error::DecodeError(e)
    }
}

impl From<tokio::task::JoinError> for Error {
    fn from(e: tokio::task::JoinError) -> (error: Error) {
        Error::TokioPanic(e)
    }
}

impl vstd::std_specs::convert::FromSpecImpl<tokio::task::JoinError> for Error {
    open spec fn obeys_from_spec() -> bool {
        true
    }

    open spec fn from_spec(e: tokio::task::JoinError) -> Error {
        Error::TokioPanic(e)
    }
}

} // verus!
