//! The RocksDB thread: how it serves the commands that instances send.
//!
//! [`CoreLoop`] takes the decisions. Whoever runs it performs the [`Action`] that
//! [`CoreLoop::step`] returns and hands back the [`Event`] that follows from it.

use vstd::prelude::*;

use crate::command::{
    get_view, gets_view, puts_model, result_model, results_model, stored_bytes, stored_view,
    writes_view, Action, ActionView, Command, CommandView, Event, EventView, WriteOp,
};
use crate::error::{Error, ErrorView, RocksDBError};
use crate::options::{Options, WriteOptions};
use crate::search::{first_where, is_first, lemma_first_found, lemma_first_none};
use crate::value::{decode_fails_with, encode_fails_with, Value};

verus! {

/// A put whose value cannot be encoded.
pub open spec fn unencodable<K, V: Value>(put: (K, Option<V::Model>)) -> bool {
    put.1 matches Some(model) && V::encoding(model) is None
}

/// The write that a put asks for: of the encoding of its value, or the deletion of its key.
pub open spec fn write_of<K, V: Value>(put: (K, Option<V::Model>)) -> (K, Option<Seq<u8>>) {
    match put.1 {
        Some(model) => (put.0, V::encoding(model)),
        None => (put.0, None),
    }
}

/// The first put of a batch whose value cannot be encoded.
pub open spec fn first_unencodable<K, V: Value>(batch: Seq<(K, Option<V::Model>)>) -> Option<
    (K, Option<V::Model>),
> {
    first_where(batch, |put: (K, Option<V::Model>)| unencodable::<K, V>(put))
}

/// The writes that a batch of puts asks for.
pub open spec fn writes_of<K, V: Value>(batch: Seq<(K, Option<V::Model>)>) -> Seq<
    (K, Option<Seq<u8>>),
> {
    batch.map_values(|put: (K, Option<V::Model>)| write_of::<K, V>(put))
}

/// Stored bytes that cannot be decoded.
pub open spec fn undecodable<V: Value>(stored: Option<Seq<u8>>) -> bool {
    stored matches Some(bytes) && V::decoding(bytes) is None
}

/// The value of stored bytes, if any.
pub open spec fn decoded<V: Value>(stored: Option<Seq<u8>>) -> Option<V::Model> {
    match stored {
        Some(bytes) => V::decoding(bytes),
        None => None,
    }
}

/// The first error among RocksDB's answers to a read.
pub open spec fn first_error(gets: Seq<Result<Option<Seq<u8>>, Seq<char>>>) -> Option<
    Result<Option<Seq<u8>>, Seq<char>>,
> {
    first_where(gets, |get: Result<Option<Seq<u8>>, Seq<char>>| get is Err)
}

/// What is stored, by RocksDB's answers to a read, where none of them is an error.
pub open spec fn stored_of(gets: Seq<Result<Option<Seq<u8>>, Seq<char>>>) -> Seq<Option<Seq<u8>>> {
    gets.map_values(|get: Result<Option<Seq<u8>>, Seq<char>>| get->Ok_0)
}

/// The first stored bytes that cannot be decoded.
pub open spec fn first_undecodable<V: Value>(stored: Seq<Option<Seq<u8>>>) -> Option<
    Option<Seq<u8>>,
> {
    first_where(stored, |bytes: Option<Seq<u8>>| undecodable::<V>(bytes))
}

/// The values of what is stored.
pub open spec fn values_of<V: Value>(stored: Seq<Option<Seq<u8>>>) -> Seq<Option<V::Model>> {
    stored.map_values(|bytes: Option<Seq<u8>>| decoded::<V>(bytes))
}

/// What a read comes to: RocksDB's first error where it gave one; else a decode error where what is
/// stored cannot all be decoded; else the values.
pub open spec fn read_outcome<V: Value>(gets: Seq<Result<Option<Seq<u8>>, Seq<char>>>) -> Result<
    Seq<Option<V::Model>>,
    ErrorView,
> {
    match first_error(gets) {
        Some(get) => Err(ErrorView::RocksDB(get->Err_0)),
        None => match first_undecodable::<V>(stored_of(gets)) {
            Some(_) => Err(ErrorView::DecodeError),
            None => Ok(values_of::<V>(stored_of(gets))),
        },
    }
}

/// Where the RocksDB thread stands.
pub enum CoreState<K, V> {
    /// It waits for a command.
    Waiting,
    /// It serves a `MultiGet` command and waits for RocksDB's answers.
    Reading {
        /// The vector that the results go to.
        results_scratch: Vec<Option<V>>,
        /// The number of keys asked for.
        batch_size: usize,
    },
    /// It serves a `MultiPut` command and waits for RocksDB's answer.
    Writing {
        /// The vector that the puts came in.
        batch: Vec<(K, Option<V>)>,
        /// The number of puts.
        batch_size: usize,
    },
    /// It has ended. No command is served any more.
    Stopped,
}

/// Where the RocksDB thread stands, mathematically.
pub enum CoreView<K, M> {
    /// It waits for a command.
    Waiting,
    /// It waits for RocksDB's answers to a read.
    Reading {
        /// The results that those of the read go behind.
        results: Seq<Option<M>>,
        /// The number of keys asked for.
        size: nat,
    },
    /// It waits for RocksDB's answer to a batch of writes.
    Writing {
        /// What is left of the batch.
        batch: Seq<(K, Option<M>)>,
        /// The number of puts.
        size: nat,
    },
    /// It has ended.
    Stopped,
}

impl<K, V: Value> View for CoreState<K, V> {
    type V = CoreView<K, V::Model>;

    open spec fn view(&self) -> CoreView<K, V::Model> {
        match *self {
            CoreState::Waiting => CoreView::Waiting,
            CoreState::Reading { results_scratch, batch_size } => CoreView::Reading {
                results: results_model(results_scratch@),
                size: batch_size as nat,
            },
            CoreState::Writing { batch, batch_size } => CoreView::Writing {
                batch: puts_model(batch@),
                size: batch_size as nat,
            },
            CoreState::Stopped => CoreView::Stopped,
        }
    }
}

/// The events that can happen to the RocksDB thread, by where it stands.
pub open spec fn expects<K, M>(state: CoreView<K, M>, event: EventView<K, M>) -> bool {
    match state {
        CoreView::Waiting => event is Received || event is Disconnected,
        CoreView::Reading { .. } => event is Gets,
        CoreView::Writing { .. } => event is Written,
        CoreView::Stopped => false,
    }
}

/// What the RocksDB thread does when `command` arrives.
pub open spec fn on_command<K, V: Value>(
    write_options: WriteOptions,
    command: CommandView<K, V::Model>,
) -> (CoreView<K, V::Model>, ActionView<K, V::Model>) {
    match command {
        CommandView::Shutdown => (CoreView::Stopped, ActionView::Close { acknowledge: true }),
        CommandView::MultiGet { batch, results } => (
            CoreView::Reading { results, size: batch.len() },
            ActionView::MultiGet(batch),
        ),
        CommandView::MultiPut { batch } => match first_unencodable::<K, V>(batch) {
            Some(_) => (
                CoreView::Stopped,
                ActionView::AnswerPut { observed: None, answer: Err(ErrorView::EncodeError) },
            ),
            None => (
                CoreView::Writing { batch: Seq::empty(), size: batch.len() },
                ActionView::Write(writes_of::<K, V>(batch), write_options),
            ),
        },
    }
}

/// What the RocksDB thread does when RocksDB has answered a read of `size` keys. Only a read in
/// which RocksDB did not fail is recorded in the metrics.
pub open spec fn on_gets<K, V: Value>(
    results: Seq<Option<V::Model>>,
    size: nat,
    gets: Seq<Result<Option<Seq<u8>>, Seq<char>>>,
) -> (CoreView<K, V::Model>, ActionView<K, V::Model>) {
    let observed = if first_error(gets) is None {
        Some(size)
    } else {
        None
    };
    match read_outcome::<V>(gets) {
        Ok(values) => (
            CoreView::Waiting,
            ActionView::AnswerGet { observed, answer: Ok((Seq::empty(), results + values)) },
        ),
        Err(e) => (CoreView::Stopped, ActionView::AnswerGet { observed, answer: Err(e) }),
    }
}

/// What the RocksDB thread does when RocksDB has answered a batch of `size` writes. Only a batch
/// that was written is recorded in the metrics.
pub open spec fn on_written<K, M>(
    batch: Seq<(K, Option<M>)>,
    size: nat,
    written: Result<(), Seq<char>>,
) -> (CoreView<K, M>, ActionView<K, M>) {
    match written {
        Ok(()) => (
            CoreView::Waiting,
            ActionView::AnswerPut { observed: Some(size), answer: Ok(batch) },
        ),
        Err(message) => (
            CoreView::Stopped,
            ActionView::AnswerPut { observed: None, answer: Err(ErrorView::RocksDB(message)) },
        ),
    }
}

/// What the RocksDB thread does when an event that it expects happens.
pub open spec fn core_step<K, V: Value>(
    write_options: WriteOptions,
    state: CoreView<K, V::Model>,
    event: EventView<K, V::Model>,
) -> (CoreView<K, V::Model>, ActionView<K, V::Model>)
    recommends
        expects(state, event),
{
    match (state, event) {
        (CoreView::Waiting, EventView::Received(command)) => on_command::<K, V>(
            write_options,
            command,
        ),
        (CoreView::Waiting, EventView::Disconnected) => (
            CoreView::Stopped,
            ActionView::Close { acknowledge: false },
        ),
        (CoreView::Reading { results, size }, EventView::Gets(gets)) => on_gets::<K, V>(
            results,
            size,
            gets,
        ),
        (CoreView::Writing { batch, size }, EventView::Written(written)) => on_written(
            batch,
            size,
            written,
        ),
        _ => arbitrary(),
    }
}

/// Encodes the values of a batch of puts, in their order, and empties the batch. Stops at the first
/// value that cannot be encoded.
pub fn encode_batch<K, V: Value>(batch: &mut Vec<(K, Option<V>)>) -> (result: Result<
    Vec<WriteOp<K>>,
    bincode::Error,
>)
    ensures
        final(batch)@ == Seq::<(K, Option<V>)>::empty(),
        match result {
            Ok(writes) => {
                &&& first_unencodable::<K, V>(puts_model(old(batch)@)) is None
                &&& writes_view(writes@) == writes_of::<K, V>(puts_model(old(batch)@))
            },
            Err(e) => {
                &&& first_unencodable::<K, V>(puts_model(old(batch)@)) matches Some(put)
                &&& put.1 matches Some(model)
                &&& encode_fails_with::<V>(model, e)
            },
        },
{
    let ghost puts = puts_model(batch@);
    let ghost bad = |put: (K, Option<V::Model>)| unencodable::<K, V>(put);
    let puts_in = batch.split_off(0);
    let mut writes: Vec<WriteOp<K>> = Vec::new();
    for put in iter: puts_in
        invariant
            puts_in@ == old(batch)@,
            puts == puts_model(puts_in@),
            iter.seq() == puts_in@,
            bad == (|put: (K, Option<V::Model>)| unencodable::<K, V>(put)),
            batch@ == Seq::<(K, Option<V>)>::empty(),
            writes@.len() == iter.index(),
            forall|i: int|
                0 <= i < writes@.len() ==> #[trigger] writes@[i]@ == write_of::<K, V>(puts[i]),
            forall|i: int| 0 <= i < writes@.len() ==> !bad(#[trigger] puts[i]),
    {
        let ghost i = iter.index();
        assert(puts[i] == (put.0, result_model(put.1)));
        let (key, value) = put;
        match value {
            Some(update) => {
                match update.encode() {
                    Ok(encoded) => {
                        writes.push(WriteOp::Put { key, value: encoded });
                    },
                    Err(e) => {
                        proof {
                            assert(is_first(puts, bad, i));
                            lemma_first_found(puts, bad, i);
                        }
                        return Err(e);
                    },
                }
            },
            None => {
                writes.push(WriteOp::Delete { key });
            },
        }
    }
    proof {
        lemma_first_none(puts, bad);
        assert(writes_view(writes@) =~= writes_of::<K, V>(puts));
    }
    Ok(writes)
}

/// Collects what is stored from RocksDB's answers to a read, or its first error.
pub fn collect_gets(gets: Vec<Result<Option<Vec<u8>>, RocksDBError>>) -> (result: Result<
    Vec<Option<Vec<u8>>>,
    RocksDBError,
>)
    ensures
        match result {
            Ok(stored) => {
                &&& first_error(gets_view(gets@)) is None
                &&& stored_view(stored@) == stored_of(gets_view(gets@))
            },
            Err(e) => first_error(gets_view(gets@)) == Some(
                Err::<Option<Seq<u8>>, Seq<char>>(e@),
            ),
        },
{
    let ghost answers = gets_view(gets@);
    let ghost bad = |get: Result<Option<Seq<u8>>, Seq<char>>| get is Err;
    let mut stored: Vec<Option<Vec<u8>>> = Vec::new();
    for get in iter: gets
        invariant
            answers == gets_view(gets@),
            iter.seq() == gets@,
            bad == (|get: Result<Option<Seq<u8>>, Seq<char>>| get is Err),
            stored@.len() == iter.index(),
            forall|i: int|
                0 <= i < stored@.len() ==> stored_bytes(#[trigger] stored@[i])
                    == answers[i]->Ok_0,
            forall|i: int| 0 <= i < stored@.len() ==> !bad(#[trigger] answers[i]),
    {
        let ghost i = iter.index();
        assert(answers[i] == get_view(get));
        match get {
            Ok(bytes) => {
                stored.push(bytes);
            },
            Err(e) => {
                proof {
                    assert(is_first(answers, bad, i));
                    lemma_first_found(answers, bad, i);
                }
                return Err(e);
            },
        }
    }
    proof {
        lemma_first_none(answers, bad);
        assert(stored_view(stored@) =~= stored_of(answers));
    }
    Ok(stored)
}

/// Decodes what is stored, in its order, and puts the values behind those of `results_scratch`.
/// Stops at the first stored bytes that cannot be decoded.
pub fn decode_values<V: Value>(
    stored: Vec<Option<Vec<u8>>>,
    results_scratch: Vec<Option<V>>,
) -> (result: Result<Vec<Option<V>>, bincode::Error>)
    ensures
        match result {
            Ok(results) => {
                &&& first_undecodable::<V>(stored_view(stored@)) is None
                &&& results_model(results@) == results_model(results_scratch@) + values_of::<V>(
                    stored_view(stored@),
                )
            },
            Err(e) => {
                &&& first_undecodable::<V>(stored_view(stored@)) matches Some(Some(bytes))
                &&& decode_fails_with::<V>(bytes, e)
            },
        },
{
    let ghost bytes_in = stored_view(stored@);
    let ghost bad = |bytes: Option<Seq<u8>>| undecodable::<V>(bytes);
    let ghost before = results_scratch@.len() as int;
    let mut results = results_scratch;
    for previous_value in iter: stored
        invariant
            bytes_in == stored_view(stored@),
            iter.seq() == stored@,
            bad == (|bytes: Option<Seq<u8>>| undecodable::<V>(bytes)),
            before == results_scratch@.len(),
            results@.len() == before + iter.index(),
            forall|i: int| 0 <= i < before ==> results@[i] == #[trigger] results_scratch@[i],
            forall|i: int|
                0 <= i < iter.index() ==> result_model(results@[before + i]) == decoded::<V>(
                    #[trigger] bytes_in[i],
                ),
            forall|i: int| 0 <= i < iter.index() ==> !bad(#[trigger] bytes_in[i]),
    {
        let ghost i = iter.index();
        assert(bytes_in[i] == stored_bytes(previous_value));
        match previous_value {
            Some(bytes) => {
                match V::decode(bytes.as_slice()) {
                    Ok(value) => {
                        results.push(Some(value));
                    },
                    Err(e) => {
                        proof {
                            assert(is_first(bytes_in, bad, i));
                            lemma_first_found(bytes_in, bad, i);
                        }
                        return Err(e);
                    },
                }
            },
            None => {
                results.push(None);
            },
        }
    }
    proof {
        lemma_first_none(bytes_in, bad);
        let expected = results_model(results_scratch@) + values_of::<V>(bytes_in);
        assert forall|i: int| 0 <= i < results@.len() implies result_model(#[trigger] results@[i])
            == expected[i] by {
            if i >= before {
                assert(result_model(results@[before + (i - before)]) == decoded::<V>(
                    bytes_in[i - before],
                ));
            }
        }
        assert(results_model(results@) =~= expected);
    }
    Ok(results)
}

/// The RocksDB thread: where it stands and what it makes writes with.
pub struct CoreLoop<K, V> {
    /// What every write is made with.
    pub write_options: WriteOptions,
    /// Where the thread stands.
    pub state: CoreState<K, V>,
}

impl<K, V: Value> CoreLoop<K, V> {
    /// A thread that has opened its database and waits for a command.
    pub fn new<Env>(options: &Options<Env>) -> (core: Self)
        ensures
            core.write_options.disable_wal == !options.use_wal,
            core.state@ == CoreView::<K, V::Model>::Waiting,
    {
        CoreLoop { write_options: options.as_rocksdb_write_options(), state: CoreState::Waiting }
    }

    /// Takes an event that the thread expects, and says what it does next.
    ///
    /// A value that cannot be encoded or decoded is answered with the error that its encoding or
    /// decoding gave.
    pub fn step(&mut self, event: Event<K, V>) -> (action: Action<K, V>)
        requires
            expects(old(self).state@, event@),
        ensures
            final(self).write_options == old(self).write_options,
            (final(self).state@, action@) == core_step::<K, V>(
                old(self).write_options,
                old(self).state@,
                event@,
            ),
            match (event, action) {
                (
                    Event::Received(Command::MultiPut { batch }),
                    Action::AnswerPut { answer: Err(Error::EncodeError(e)), .. },
                ) => {
                    &&& first_unencodable::<K, V>(puts_model(batch@)) matches Some(put)
                    &&& put.1 matches Some(model)
                    &&& encode_fails_with::<V>(model, e)
                },
                (
                    Event::Gets { gets, .. },
                    Action::AnswerGet { answer: Err(Error::DecodeError(e)), .. },
                ) => {
                    &&& first_undecodable::<V>(stored_of(gets_view(gets@))) matches Some(
                        Some(bytes),
                    )
                    &&& decode_fails_with::<V>(bytes, e)
                },
                _ => true,
            },
    {
        let mut state: CoreState<K, V> = CoreState::Stopped;
        std::mem::swap(&mut state, &mut self.state);
        match (state, event) {
            (CoreState::Waiting, Event::Received(command)) => self.receive(command),
            (CoreState::Waiting, Event::Disconnected) => Action::Close { acknowledge: false },
            (
                CoreState::Reading { results_scratch, batch_size },
                Event::Gets { batch, gets },
            ) => self.finish_get(results_scratch, batch_size, batch, gets),
            (CoreState::Writing { batch, batch_size }, Event::Written(written)) => self.finish_put(
                batch,
                batch_size,
                written,
            ),
            // No other event is expected.
            _ => Action::Close { acknowledge: false },
        }
    }

    fn receive(&mut self, command: Command<K, V>) -> (action: Action<K, V>)
        requires
            old(self).state@ is Stopped,
        ensures
            final(self).write_options == old(self).write_options,
            (final(self).state@, action@) == on_command::<K, V>(
                old(self).write_options,
                command@,
            ),
            match (command, action) {
                (
                    Command::MultiPut { batch },
                    Action::AnswerPut { answer: Err(Error::EncodeError(e)), .. },
                ) => {
                    &&& first_unencodable::<K, V>(puts_model(batch@)) matches Some(put)
                    &&& put.1 matches Some(model)
                    &&& encode_fails_with::<V>(model, e)
                },
                _ => true,
            },
    {
        match command {
            Command::Shutdown => Action::Close { acknowledge: true },
            Command::MultiGet { batch, results_scratch } => {
                let batch_size = batch.len();
                self.state = CoreState::Reading { results_scratch, batch_size };
                Action::MultiGet { batch }
            },
            Command::MultiPut { mut batch } => {
                let batch_size = batch.len();
                match encode_batch(&mut batch) {
                    Ok(writes) => {
                        assert(puts_model(batch@) =~= Seq::empty());
                        self.state = CoreState::Writing { batch, batch_size };
                        Action::Write { writes, options: self.write_options }
                    },
                    Err(e) => Action::AnswerPut {
                        observed: None,
                        answer: Err(Error::EncodeError(e)),
                    },
                }
            },
        }
    }

    fn finish_get(
        &mut self,
        results_scratch: Vec<Option<V>>,
        batch_size: usize,
        batch: Vec<K>,
        gets: Vec<Result<Option<Vec<u8>>, RocksDBError>>,
    ) -> (action: Action<K, V>)
        requires
            old(self).state@ is Stopped,
        ensures
            final(self).write_options == old(self).write_options,
            (final(self).state@, action@) == on_gets::<K, V>(
                results_model(results_scratch@),
                batch_size as nat,
                gets_view(gets@),
            ),
            action matches Action::AnswerGet { answer: Err(Error::DecodeError(e)), .. } ==> {
                &&& first_undecodable::<V>(stored_of(gets_view(gets@))) matches Some(Some(bytes))
                &&& decode_fails_with::<V>(bytes, e)
            },
    {
        let mut batch = batch;
        batch.clear();
        match collect_gets(gets) {
            Ok(stored) => {
                let answer = match decode_values(stored, results_scratch) {
                    Ok(results) => {
                        self.state = CoreState::Waiting;
                        Ok((batch, results))
                    },
                    Err(e) => Err(Error::DecodeError(e)),
                };
                Action::AnswerGet { observed: Some(batch_size), answer }
            },
            Err(e) => Action::AnswerGet { observed: None, answer: Err(Error::RocksDB(e)) },
        }
    }

    fn finish_put(
        &mut self,
        batch: Vec<(K, Option<V>)>,
        batch_size: usize,
        written: Result<(), RocksDBError>,
    ) -> (action: Action<K, V>)
        requires
            old(self).state@ is Stopped,
        ensures
            final(self).write_options == old(self).write_options,
            (final(self).state@, action@) == on_written(
                puts_model(batch@),
                batch_size as nat,
                match written {
                    Ok(()) => Ok(()),
                    Err(e) => Err(e@),
                },
            ),
    {
        match written {
            Ok(()) => {
                self.state = CoreState::Waiting;
                Action::AnswerPut { observed: Some(batch_size), answer: Ok(batch) }
            },
            Err(e) => Action::AnswerPut { observed: None, answer: Err(Error::RocksDB(e)) },
        }
    }
}

} // verus!
