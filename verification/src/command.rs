//! What is said between an instance and the RocksDB thread, and between that thread and RocksDB.

use vstd::prelude::*;

use crate::error::{Error, ErrorView, RocksDBError};
use crate::options::WriteOptions;
use crate::value::Value;

verus! {

/// A command to the RocksDB thread.
#[derive(Debug)]
#[allow(inconsistent_fields)]
pub enum Command<K, V> {
    /// Read the values of the keys of a batch.
    MultiGet {
        /// The keys.
        batch: Vec<K>,
        /// Scratch vector to return results in.
        results_scratch: Vec<Option<V>>,
    },
    /// Store the values of a batch under its keys, and delete the keys without a value.
    MultiPut {
        /// The keys and their values.
        batch: Vec<(K, Option<V>)>,
    },
    /// Shut RocksDB down.
    Shutdown,
}

/// One write of a batch of writes.
#[derive(Debug)]
pub enum WriteOp<K> {
    /// Store `value` under `key`.
    Put {
        /// The key.
        key: K,
        /// The bytes to store.
        value: Vec<u8>,
    },
    /// Delete `key`.
    Delete {
        /// The key.
        key: K,
    },
}

/// What happens to the RocksDB thread.
pub enum Event<K, V> {
    /// A command arrived.
    Received(Command<K, V>),
    /// Every instance that could send a command is gone.
    Disconnected,
    /// RocksDB has answered a read, with one answer per key: the stored bytes, if any. `batch` is
    /// the vector that held the keys.
    Gets {
        /// The vector that held the keys.
        batch: Vec<K>,
        /// The answers.
        gets: Vec<Result<Option<Vec<u8>>, RocksDBError>>,
    },
    /// RocksDB has made a batch of writes, or has failed to.
    Written(Result<(), RocksDBError>),
}

/// What the RocksDB thread does next.
#[allow(inconsistent_fields)]
pub enum Action<K, V> {
    /// Read the keys of a batch from RocksDB, and hand back the answers and the vector.
    MultiGet {
        /// The keys.
        batch: Vec<K>,
    },
    /// Have RocksDB make these writes, in this order and as a whole, and hand back the result.
    Write {
        /// The writes.
        writes: Vec<WriteOp<K>>,
        /// What they are made with.
        options: WriteOptions,
    },
    /// Answer the `MultiGet` command that is being served, with the batch vector and the results.
    AnswerGet {
        /// Where the read is recorded in the metrics, the size of its batch.
        observed: Option<usize>,
        /// The answer.
        answer: Result<(Vec<K>, Vec<Option<V>>), Error>,
    },
    /// Answer the `MultiPut` command that is being served, with the batch vector.
    AnswerPut {
        /// Where the write is recorded in the metrics, the size of its batch.
        observed: Option<usize>,
        /// The answer.
        answer: Result<Vec<(K, Option<V>)>, Error>,
    },
    /// Wait for RocksDB's background work to be cancelled and close the database.
    Close {
        /// Whether a `Shutdown` command waits to hear of it.
        acknowledge: bool,
    },
}

/// A stored value or none: what it is mathematically.
pub open spec fn result_model<V: Value>(value: Option<V>) -> Option<V::Model> {
    match value {
        Some(value) => Some(value.model()),
        None => None,
    }
}

/// What a vector of results is mathematically.
pub open spec fn results_model<V: Value>(results: Seq<Option<V>>) -> Seq<Option<V::Model>> {
    results.map_values(|value: Option<V>| result_model(value))
}

/// What a batch of puts is mathematically.
pub open spec fn puts_model<K, V: Value>(batch: Seq<(K, Option<V>)>) -> Seq<
    (K, Option<V::Model>),
> {
    batch.map_values(|put: (K, Option<V>)| (put.0, result_model(put.1)))
}

/// What is stored under a key, if anything.
pub open spec fn stored_bytes(stored: Option<Vec<u8>>) -> Option<Seq<u8>> {
    match stored {
        Some(bytes) => Some(bytes@),
        None => None,
    }
}

/// What is stored under each of some keys.
pub open spec fn stored_view(stored: Seq<Option<Vec<u8>>>) -> Seq<Option<Seq<u8>>> {
    stored.map_values(|bytes: Option<Vec<u8>>| stored_bytes(bytes))
}

/// RocksDB's answer for one key: the stored bytes, if any, or the message of its error.
pub open spec fn get_view(get: Result<Option<Vec<u8>>, RocksDBError>) -> Result<
    Option<Seq<u8>>,
    Seq<char>,
> {
    match get {
        Ok(stored) => Ok(stored_bytes(stored)),
        Err(e) => Err(e@),
    }
}

/// RocksDB's answers to a read.
pub open spec fn gets_view(gets: Seq<Result<Option<Vec<u8>>, RocksDBError>>) -> Seq<
    Result<Option<Seq<u8>>, Seq<char>>,
> {
    gets.map_values(|get: Result<Option<Vec<u8>>, RocksDBError>| get_view(get))
}

/// A write is a key with the bytes that are stored under it, or with none where it is deleted.
impl<K> View for WriteOp<K> {
    type V = (K, Option<Seq<u8>>);

    open spec fn view(&self) -> (K, Option<Seq<u8>>) {
        match *self {
            WriteOp::Put { key, value } => (key, Some(value@)),
            WriteOp::Delete { key } => (key, None),
        }
    }
}

/// A batch of writes.
pub open spec fn writes_view<K>(writes: Seq<WriteOp<K>>) -> Seq<(K, Option<Seq<u8>>)> {
    writes.map_values(|write: WriteOp<K>| write@)
}

/// A size in the metrics, if any.
pub open spec fn observed_view(observed: Option<usize>) -> Option<nat> {
    match observed {
        Some(size) => Some(size as nat),
        None => None,
    }
}

/// What a [`Command`] is mathematically, with values of model `M`.
#[allow(inconsistent_fields)]
pub enum CommandView<K, M> {
    /// Read these keys; the results go behind those that are there.
    MultiGet {
        /// The keys.
        batch: Seq<K>,
        /// The results that are there.
        results: Seq<Option<M>>,
    },
    /// Make these puts.
    MultiPut {
        /// The keys and their values.
        batch: Seq<(K, Option<M>)>,
    },
    /// Shut down.
    Shutdown,
}

/// What an [`Event`] is mathematically.
pub enum EventView<K, M> {
    /// A command arrived.
    Received(CommandView<K, M>),
    /// No command can arrive any more.
    Disconnected,
    /// RocksDB's answers to a read.
    Gets(Seq<Result<Option<Seq<u8>>, Seq<char>>>),
    /// RocksDB's answer to a batch of writes.
    Written(Result<(), Seq<char>>),
}

/// What an [`Action`] is mathematically.
#[allow(inconsistent_fields)]
pub enum ActionView<K, M> {
    /// Read these keys.
    MultiGet(Seq<K>),
    /// Make these writes.
    Write(Seq<(K, Option<Seq<u8>>)>, WriteOptions),
    /// Answer a read.
    AnswerGet {
        /// The size that is recorded in the metrics, if any.
        observed: Option<nat>,
        /// The answer.
        answer: Result<(Seq<K>, Seq<Option<M>>), ErrorView>,
    },
    /// Answer a batch of puts.
    AnswerPut {
        /// The size that is recorded in the metrics, if any.
        observed: Option<nat>,
        /// The answer.
        answer: Result<Seq<(K, Option<M>)>, ErrorView>,
    },
    /// Close the database.
    Close {
        /// Whether that is acknowledged.
        acknowledge: bool,
    },
}

impl<K, V: Value> View for Command<K, V> {
    type V = CommandView<K, V::Model>;

    open spec fn view(&self) -> CommandView<K, V::Model> {
        match *self {
            Command::MultiGet { batch, results_scratch } => CommandView::MultiGet {
                batch: batch@,
                results: results_model(results_scratch@),
            },
            Command::MultiPut { batch } => CommandView::MultiPut { batch: puts_model(batch@) },
            Command::Shutdown => CommandView::Shutdown,
        }
    }
}

impl<K, V: Value> View for Event<K, V> {
    type V = EventView<K, V::Model>;

    open spec fn view(&self) -> EventView<K, V::Model> {
        match *self {
            Event::Received(command) => EventView::Received(command@),
            Event::Disconnected => EventView::Disconnected,
            Event::Gets { batch, gets } => EventView::Gets(gets_view(gets@)),
            Event::Written(Ok(())) => EventView::Written(Ok(())),
            Event::Written(Err(e)) => EventView::Written(Err(e@)),
        }
    }
}

impl<K, V: Value> View for Action<K, V> {
    type V = ActionView<K, V::Model>;

    open spec fn view(&self) -> ActionView<K, V::Model> {
        match *self {
            Action::MultiGet { batch } => ActionView::MultiGet(batch@),
            Action::Write { writes, options } => ActionView::Write(writes_view(writes@), options),
            Action::AnswerGet { observed, answer } => ActionView::AnswerGet {
                observed: observed_view(observed),
                answer: match answer {
                    Ok((batch, results)) => Ok((batch@, results_model(results@))),
                    Err(e) => Err(e@),
                },
            },
            Action::AnswerPut { observed, answer } => ActionView::AnswerPut {
                observed: observed_view(observed),
                answer: match answer {
                    Ok(batch) => Ok(puts_model(batch@)),
                    Err(e) => Err(e@),
                },
            },
            Action::Close { acknowledge } => ActionView::Close { acknowledge },
        }
    }
}

} // verus!
