//! What the RocksDB thread does with each event: the laws of one call of
//! [`CoreLoop::step`]. `before` and `after` are the thread before and after the call.

use vstd::prelude::*;

use crate::command::{
    gets_view, puts_model, results_model, writes_view, Action, Command, Event, WriteOp,
};
use crate::core_loop::{
    stored_of, undecodable, unencodable, values_of, writes_of, CoreLoop, CoreState,
};
use crate::error::{Error, RocksDBError};
use crate::options::{Options, WriteOptions};
use crate::search::{is_first, lemma_first_found, lemma_first_none};
use crate::value::Value;

verus! {

/// A `Shutdown` command has the database closed and is acknowledged; the thread ends.
pub proof fn shutdown_closes<K, V: Value>(
    before: CoreLoop<K, V>,
    after: CoreLoop<K, V>,
    action: Action<K, V>,
)
    requires
        before.state is Waiting,
        exists|thread: &mut CoreLoop<K, V>|
            {
                &&& *thread == before
                &&& *final(thread) == after
                &&& #[trigger] call_ensures(
                    CoreLoop::<K, V>::step,
                    (thread, Event::Received(Command::Shutdown)),
                    action,
                )
            },
    ensures
        after.state is Stopped,
        after.write_options == before.write_options,
        action == (Action::<K, V>::Close { acknowledge: true }),
{
}

/// When no instance is left the database is closed, whatever the options, with nobody to tell; the
/// thread ends.
pub proof fn abandoned_thread_closes<K, V: Value>(
    before: CoreLoop<K, V>,
    after: CoreLoop<K, V>,
    action: Action<K, V>,
)
    requires
        before.state is Waiting,
        exists|thread: &mut CoreLoop<K, V>|
            {
                &&& *thread == before
                &&& *final(thread) == after
                &&& #[trigger] call_ensures(
                    CoreLoop::<K, V>::step,
                    (thread, Event::Disconnected),
                    action,
                )
            },
    ensures
        after.state is Stopped,
        after.write_options == before.write_options,
        action == (Action::<K, V>::Close { acknowledge: false }),
{
}

/// A `MultiGet` command has exactly its keys read, in their order. Its results are to go behind
/// what its scratch vector holds.
pub proof fn get_reads_its_keys<K, V: Value>(
    before: CoreLoop<K, V>,
    keys: Vec<K>,
    scratch: Vec<Option<V>>,
    after: CoreLoop<K, V>,
    action: Action<K, V>,
)
    requires
        before.state is Waiting,
        exists|thread: &mut CoreLoop<K, V>|
            {
                &&& *thread == before
                &&& *final(thread) == after
                &&& #[trigger] call_ensures(
                    CoreLoop::<K, V>::step,
                    (
                        thread,
                        Event::Received(
                            Command::MultiGet { batch: keys, results_scratch: scratch },
                        ),
                    ),
                    action,
                )
            },
    ensures
        after.write_options == before.write_options,
        action matches Action::MultiGet { batch } && batch@ == keys@,
        after.state matches CoreState::Reading { results_scratch, batch_size } && {
            &&& batch_size == keys@.len()
            &&& results_scratch@.len() == scratch@.len()
            &&& forall|i: int|
                0 <= i < scratch@.len() ==> match (#[trigger] scratch@[i], results_scratch@[i]) {
                    (Some(given), Some(kept)) => given.model() == kept.model(),
                    (given, kept) => given is None && kept is None,
                }
        },
{
    let results_scratch = after.state->results_scratch;
    assert(results_model(results_scratch@) == results_model(scratch@));
    assert forall|i: int| 0 <= i < scratch@.len() implies match (
        #[trigger] scratch@[i],
        results_scratch@[i],
    ) {
        (Some(given), Some(kept)) => given.model() == kept.model(),
        (given, kept) => given is None && kept is None,
    } by {
        assert(results_model(results_scratch@)[i] == results_model(scratch@)[i]);
    }
}

/// A batch of puts in which any value cannot be encoded, wherever it stands, is answered with an
/// encode error. Nothing of the batch is written, and the thread ends.
pub proof fn unencodable_put_is_refused<K, V: Value>(
    before: CoreLoop<K, V>,
    batch: Vec<(K, Option<V>)>,
    i: int,
    after: CoreLoop<K, V>,
    action: Action<K, V>,
)
    requires
        before.state is Waiting,
        0 <= i < batch@.len(),
        batch@[i].1 matches Some(value) && V::encoding(value.model()) is None,
        exists|thread: &mut CoreLoop<K, V>|
            {
                &&& *thread == before
                &&& *final(thread) == after
                &&& #[trigger] call_ensures(
                    CoreLoop::<K, V>::step,
                    (thread, Event::Received(Command::MultiPut { batch })),
                    action,
                )
            },
    ensures
        after.state is Stopped,
        after.write_options == before.write_options,
        action matches Action::AnswerPut { observed: None, answer: Err(Error::EncodeError(_)) },
{
    let puts = puts_model(batch@);
    let bad = |put: (K, Option<V::Model>)| unencodable::<K, V>(put);
    assert(bad(puts[i]));
    lemma_first_none(puts, bad);
}

/// A batch of puts that is refused is answered with the error of the first value that could not be
/// encoded.
pub proof fn first_encode_error_is_reported<K, V: Value>(
    before: CoreLoop<K, V>,
    batch: Vec<(K, Option<V>)>,
    i: int,
    after: CoreLoop<K, V>,
    action: Action<K, V>,
)
    requires
        before.state is Waiting,
        0 <= i < batch@.len(),
        batch@[i].1 matches Some(value) && V::encoding(value.model()) is None,
        forall|j: int|
            0 <= j < i ==> ((#[trigger] batch@[j]).1 matches Some(value) ==> V::encoding(
                value.model(),
            ) is Some),
        exists|thread: &mut CoreLoop<K, V>|
            {
                &&& *thread == before
                &&& *final(thread) == after
                &&& #[trigger] call_ensures(
                    CoreLoop::<K, V>::step,
                    (thread, Event::Received(Command::MultiPut { batch })),
                    action,
                )
            },
    ensures
        action matches Action::AnswerPut { answer: Err(Error::EncodeError(e)), .. } && exists|
            value: V,
        |
            {
                &&& value.model() == batch@[i].1->0.model()
                &&& #[trigger] call_ensures(V::encode, (&value,), Err(e))
            },
{
    let puts = puts_model(batch@);
    let bad = |put: (K, Option<V::Model>)| unencodable::<K, V>(put);
    assert(bad(puts[i]));
    assert forall|j: int| 0 <= j < i implies !bad(#[trigger] puts[j]) by {
        assert(puts[j].0 == batch@[j].0);
    }
    assert(is_first(puts, bad, i));
    lemma_first_found(puts, bad, i);
}

/// A batch of puts in which every value can be encoded is written as a whole, put by put and in
/// order: a value as its encoding under its key, and no value as a deletion of its key. The write
/// is made with the thread's options.
pub proof fn put_is_written_as_encoded<K, V: Value>(
    before: CoreLoop<K, V>,
    batch: Vec<(K, Option<V>)>,
    after: CoreLoop<K, V>,
    action: Action<K, V>,
)
    requires
        before.state is Waiting,
        forall|i: int|
            0 <= i < batch@.len() ==> ((#[trigger] batch@[i]).1 matches Some(value) ==> V::encoding(
                value.model(),
            ) is Some),
        exists|thread: &mut CoreLoop<K, V>|
            {
                &&& *thread == before
                &&& *final(thread) == after
                &&& #[trigger] call_ensures(
                    CoreLoop::<K, V>::step,
                    (thread, Event::Received(Command::MultiPut { batch })),
                    action,
                )
            },
    ensures
        after.write_options == before.write_options,
        after.state matches CoreState::Writing { batch: left, batch_size } && left@.len() == 0
            && batch_size == batch@.len(),
        action matches Action::Write { writes, options } && {
            &&& options == before.write_options
            &&& writes@.len() == batch@.len()
            &&& forall|i: int|
                #![trigger writes@[i]]
                #![trigger batch@[i]]
                0 <= i < batch@.len() ==> match batch@[i].1 {
                    Some(value) => writes@[i] matches WriteOp::Put { key, value: bytes } && key
                        == batch@[i].0 && V::encoding(value.model()) == Some(bytes@),
                    None => writes@[i] matches WriteOp::Delete { key } && key == batch@[i].0,
                }
        },
{
    let puts = puts_model(batch@);
    let bad = |put: (K, Option<V::Model>)| unencodable::<K, V>(put);
    lemma_first_none(puts, bad);
    assert forall|i: int| 0 <= i < puts.len() implies !bad(#[trigger] puts[i]) by {
        assert(puts[i].0 == batch@[i].0);
    }
    let writes = action->writes;
    assert(writes_view(writes@) == writes_of::<K, V>(puts));
    assert(writes_view(writes@).len() == writes@.len());
    assert(puts_model((after.state->Writing_batch)@).len() == 0);
    assert forall|i: int|
        #![trigger writes@[i]]
        #![trigger batch@[i]]
        0 <= i < batch@.len() implies match batch@[i].1 {
        Some(value) => writes@[i] matches WriteOp::Put { key, value: bytes } && key == batch@[i].0
            && V::encoding(value.model()) == Some(bytes@),
        None => writes@[i] matches WriteOp::Delete { key } && key == batch@[i].0,
    } by {
        assert(writes_view(writes@)[i] == writes_of::<K, V>(puts)[i]);
        assert(!bad(puts[i]));
    }
}

/// A read in which RocksDB fails for any key is answered with RocksDB's first error, whatever the
/// other keys hold, is not recorded in the metrics, and ends the thread.
pub proof fn failed_read_is_reported<K, V: Value>(
    before: CoreLoop<K, V>,
    keys: Vec<K>,
    gets: Vec<Result<Option<Vec<u8>>, RocksDBError>>,
    i: int,
    after: CoreLoop<K, V>,
    action: Action<K, V>,
)
    requires
        before.state is Reading,
        0 <= i < gets@.len(),
        gets@[i] is Err,
        forall|j: int| 0 <= j < i ==> (#[trigger] gets@[j]) is Ok,
        exists|thread: &mut CoreLoop<K, V>|
            {
                &&& *thread == before
                &&& *final(thread) == after
                &&& #[trigger] call_ensures(
                    CoreLoop::<K, V>::step,
                    (thread, Event::Gets { batch: keys, gets }),
                    action,
                )
            },
    ensures
        after.state is Stopped,
        after.write_options == before.write_options,
        action matches Action::AnswerGet { observed: None, answer: Err(Error::RocksDB(e)) }
            && e.message@ == gets@[i]->Err_0.message@,
{
    let answers = gets_view(gets@);
    let bad = |get: Result<Option<Seq<u8>>, Seq<char>>| get is Err;
    assert(bad(answers[i]));
    assert forall|j: int| 0 <= j < i implies !bad(#[trigger] answers[j]) by {
        assert(gets@[j] is Ok);
    }
    assert(is_first(answers, bad, i));
    lemma_first_found(answers, bad, i);
}

/// A read in which RocksDB does not fail but any of the stored bytes cannot be decoded, wherever
/// they stand, is answered with a decode error. It is recorded in the metrics, and ends the thread.
pub proof fn undecodable_read_is_reported<K, V: Value>(
    before: CoreLoop<K, V>,
    keys: Vec<K>,
    gets: Vec<Result<Option<Vec<u8>>, RocksDBError>>,
    i: int,
    after: CoreLoop<K, V>,
    action: Action<K, V>,
)
    requires
        before.state is Reading,
        forall|j: int| 0 <= j < gets@.len() ==> (#[trigger] gets@[j]) is Ok,
        0 <= i < gets@.len(),
        gets@[i]->Ok_0 matches Some(bytes) && V::decoding(bytes@) is None,
        exists|thread: &mut CoreLoop<K, V>|
            {
                &&& *thread == before
                &&& *final(thread) == after
                &&& #[trigger] call_ensures(
                    CoreLoop::<K, V>::step,
                    (thread, Event::Gets { batch: keys, gets }),
                    action,
                )
            },
    ensures
        after.state is Stopped,
        after.write_options == before.write_options,
        action matches Action::AnswerGet {
            observed: Some(size),
            answer: Err(Error::DecodeError(_)),
        } && size == before.state->Reading_batch_size,
{
    let answers = gets_view(gets@);
    let failed = |get: Result<Option<Seq<u8>>, Seq<char>>| get is Err;
    lemma_first_none(answers, failed);
    assert forall|j: int| 0 <= j < answers.len() implies !failed(#[trigger] answers[j]) by {
        assert(gets@[j] is Ok);
    }
    let stored = stored_of(answers);
    let bad = |bytes: Option<Seq<u8>>| undecodable::<V>(bytes);
    lemma_first_none(stored, bad);
    assert(gets@[i] is Ok);
    assert(bad(stored[i]));
}

/// A read that is refused for stored bytes that cannot be decoded is answered with the error of the
/// first such bytes.
pub proof fn first_decode_error_is_reported<K, V: Value>(
    before: CoreLoop<K, V>,
    keys: Vec<K>,
    gets: Vec<Result<Option<Vec<u8>>, RocksDBError>>,
    i: int,
    after: CoreLoop<K, V>,
    action: Action<K, V>,
)
    requires
        before.state is Reading,
        forall|j: int| 0 <= j < gets@.len() ==> (#[trigger] gets@[j]) is Ok,
        0 <= i < gets@.len(),
        gets@[i]->Ok_0 matches Some(bytes) && V::decoding(bytes@) is None,
        forall|j: int|
            0 <= j < i ==> ((#[trigger] gets@[j])->Ok_0 matches Some(bytes) ==> V::decoding(bytes@)
                is Some),
        exists|thread: &mut CoreLoop<K, V>|
            {
                &&& *thread == before
                &&& *final(thread) == after
                &&& #[trigger] call_ensures(
                    CoreLoop::<K, V>::step,
                    (thread, Event::Gets { batch: keys, gets }),
                    action,
                )
            },
    ensures
        action matches Action::AnswerGet { answer: Err(Error::DecodeError(e)), .. } && exists|
            bytes: &[u8],
        |
            {
                &&& bytes@ == gets@[i]->Ok_0->0@
                &&& #[trigger] call_ensures(V::decode, (bytes,), Err(e))
            },
{
    let answers = gets_view(gets@);
    let failed = |get: Result<Option<Seq<u8>>, Seq<char>>| get is Err;
    lemma_first_none(answers, failed);
    assert forall|j: int| 0 <= j < answers.len() implies !failed(#[trigger] answers[j]) by {
        assert(gets@[j] is Ok);
    }
    let stored = stored_of(answers);
    let bad = |bytes: Option<Seq<u8>>| undecodable::<V>(bytes);
    assert(gets@[i] is Ok);
    assert(bad(stored[i]));
    assert forall|j: int| 0 <= j < i implies !bad(#[trigger] stored[j]) by {
        assert(gets@[j] is Ok);
    }
    assert(is_first(stored, bad, i));
    lemma_first_found(stored, bad, i);
}

/// A read in which RocksDB does not fail and all stored bytes can be decoded is answered with one
/// result per key, in order and behind what the scratch vector held: the value that the stored
/// bytes decode to, or nothing where nothing is stored. The vector of the keys is given back empty.
/// The read is recorded in the metrics, and the thread waits for the next command.
pub proof fn get_is_answered_as_decoded<K, V: Value>(
    before: CoreLoop<K, V>,
    keys: Vec<K>,
    gets: Vec<Result<Option<Vec<u8>>, RocksDBError>>,
    after: CoreLoop<K, V>,
    action: Action<K, V>,
)
    requires
        before.state is Reading,
        forall|j: int| 0 <= j < gets@.len() ==> (#[trigger] gets@[j]) is Ok,
        forall|i: int|
            0 <= i < gets@.len() ==> ((#[trigger] gets@[i])->Ok_0 matches Some(bytes)
                ==> V::decoding(bytes@) is Some),
        exists|thread: &mut CoreLoop<K, V>|
            {
                &&& *thread == before
                &&& *final(thread) == after
                &&& #[trigger] call_ensures(
                    CoreLoop::<K, V>::step,
                    (thread, Event::Gets { batch: keys, gets }),
                    action,
                )
            },
    ensures
        after.state is Waiting,
        after.write_options == before.write_options,
        action matches Action::AnswerGet { observed: Some(size), answer: Ok((batch, results)) } && {
            let scratch = before.state->Reading_results_scratch;
            &&& size == before.state->Reading_batch_size
            &&& batch@.len() == 0
            &&& results@.len() == scratch@.len() + gets@.len()
            &&& forall|i: int|
                #![trigger scratch@[i]]
                0 <= i < scratch@.len() ==> match (scratch@[i], results@[i]) {
                    (Some(given), Some(kept)) => given.model() == kept.model(),
                    (given, kept) => given is None && kept is None,
                }
            &&& forall|i: int|
                #![trigger gets@[i]]
                0 <= i < gets@.len() ==> match (gets@[i]->Ok_0, results@[scratch@.len() + i]) {
                    (Some(bytes), Some(value)) => V::decoding(bytes@) == Some(value.model()),
                    (stored, result) => stored is None && result is None,
                }
        },
{
    let answers = gets_view(gets@);
    let failed = |get: Result<Option<Seq<u8>>, Seq<char>>| get is Err;
    lemma_first_none(answers, failed);
    assert forall|j: int| 0 <= j < answers.len() implies !failed(#[trigger] answers[j]) by {
        assert(gets@[j] is Ok);
    }
    let stored = stored_of(answers);
    let bad = |bytes: Option<Seq<u8>>| undecodable::<V>(bytes);
    lemma_first_none(stored, bad);
    assert forall|j: int| 0 <= j < stored.len() implies !bad(#[trigger] stored[j]) by {
        assert(gets@[j] is Ok);
    }
    let scratch = before.state->Reading_results_scratch;
    let results = action->AnswerGet_answer->Ok_0.1;
    let models = results_model(results@);
    assert(models == results_model(scratch@) + values_of::<V>(stored));
    assert(models.len() == results@.len());
    assert forall|i: int| #![trigger scratch@[i]] 0 <= i < scratch@.len() implies match (
        scratch@[i],
        results@[i],
    ) {
        (Some(given), Some(kept)) => given.model() == kept.model(),
        (given, kept) => given is None && kept is None,
    } by {
        assert(models[i] == results_model(scratch@)[i]);
    }
    assert forall|i: int| #![trigger gets@[i]] 0 <= i < gets@.len() implies match (
        gets@[i]->Ok_0,
        results@[scratch@.len() + i],
    ) {
        (Some(bytes), Some(value)) => V::decoding(bytes@) == Some(value.model()),
        (stored, result) => stored is None && result is None,
    } by {
        assert(gets@[i] is Ok);
        assert(!bad(stored[i]));
        assert(models[scratch@.len() + i] == values_of::<V>(stored)[i]);
    }
}

/// A batch of writes that RocksDB has made is answered with success and recorded in the metrics
/// with its size. The batch vector is given back as it is, and the thread waits for the next
/// command.
pub proof fn made_write_is_reported<K, V: Value>(
    before: CoreLoop<K, V>,
    after: CoreLoop<K, V>,
    action: Action<K, V>,
)
    requires
        before.state is Writing,
        exists|thread: &mut CoreLoop<K, V>|
            {
                &&& *thread == before
                &&& *final(thread) == after
                &&& #[trigger] call_ensures(
                    CoreLoop::<K, V>::step,
                    (thread, Event::Written(Ok(()))),
                    action,
                )
            },
    ensures
        after.state is Waiting,
        after.write_options == before.write_options,
        action matches Action::AnswerPut { observed: Some(size), answer: Ok(batch) } && {
            let left = before.state->Writing_batch;
            &&& size == before.state->Writing_batch_size
            &&& batch@.len() == left@.len()
            &&& forall|i: int|
                #![trigger left@[i]]
                0 <= i < left@.len() ==> left@[i].0 == batch@[i].0 && match (
                    left@[i].1,
                    batch@[i].1,
                ) {
                    (Some(given), Some(kept)) => given.model() == kept.model(),
                    (given, kept) => given is None && kept is None,
                }
        },
{
    let left = before.state->Writing_batch;
    let batch = action->AnswerPut_answer->Ok_0;
    assert(puts_model(batch@) == puts_model(left@));
    assert(puts_model(batch@).len() == batch@.len());
    assert forall|i: int| #![trigger left@[i]] 0 <= i < left@.len() implies left@[i].0
        == batch@[i].0 && match (left@[i].1, batch@[i].1) {
        (Some(given), Some(kept)) => given.model() == kept.model(),
        (given, kept) => given is None && kept is None,
    } by {
        assert(puts_model(batch@)[i] == puts_model(left@)[i]);
    }
}

/// A batch of writes that RocksDB fails to make is answered with RocksDB's error, whatever its
/// size, is not recorded in the metrics, and ends the thread.
pub proof fn failed_write_is_reported<K, V: Value>(
    before: CoreLoop<K, V>,
    e: RocksDBError,
    after: CoreLoop<K, V>,
    action: Action<K, V>,
)
    requires
        before.state is Writing,
        exists|thread: &mut CoreLoop<K, V>|
            {
                &&& *thread == before
                &&& *final(thread) == after
                &&& #[trigger] call_ensures(
                    CoreLoop::<K, V>::step,
                    (thread, Event::Written(Err(e))),
                    action,
                )
            },
    ensures
        after.state is Stopped,
        after.write_options == before.write_options,
        action matches Action::AnswerPut { observed: None, answer: Err(Error::RocksDB(reported)) }
            && reported.message@ == e.message@,
{
}

/// A read is answered only out of a `MultiGet` command that is served, and a batch of puts only out
/// of a `MultiPut` command that is served. Puts are answered with success only once RocksDB has
/// written them.
pub proof fn answers_belong_to_commands<K, V: Value>(
    before: CoreLoop<K, V>,
    event: Event<K, V>,
    after: CoreLoop<K, V>,
    action: Action<K, V>,
)
    requires
        match event {
            Event::Received(_) | Event::Disconnected => before.state is Waiting,
            Event::Gets { .. } => before.state is Reading,
            Event::Written(_) => before.state is Writing,
        },
        exists|thread: &mut CoreLoop<K, V>|
            {
                &&& *thread == before
                &&& *final(thread) == after
                &&& #[trigger] call_ensures(
                    CoreLoop::<K, V>::step,
                    (thread, event),
                    action,
                )
            },
    ensures
        action is AnswerGet ==> before.state is Reading,
        action matches Action::AnswerPut { answer, .. } ==> {
            ||| before.state is Writing && (answer is Ok <==> event->Written_0 is Ok)
            ||| event is Received && event->Received_0 is MultiPut && answer is Err
        },
        action is Write ==> event is Received && event->Received_0 is MultiPut,
        action is MultiGet ==> event is Received && event->Received_0 is MultiGet,
        action is Close ==> event is Disconnected || event is Received && event->Received_0
            is Shutdown,
{
}

/// What a batch of puts has RocksDB store, a read gives back: where RocksDB answers a key of a read
/// with the bytes that it was given for a put, and the read succeeds, its result for the key is the
/// value that was put, provided that decoding undoes the encoding of the value.
pub proof fn written_values_are_read_back<K, V: Value>(
    writer: CoreLoop<K, V>,
    batch: Vec<(K, Option<V>)>,
    written: CoreLoop<K, V>,
    writes: Vec<WriteOp<K>>,
    options: WriteOptions,
    i: int,
    reader: CoreLoop<K, V>,
    keys: Vec<K>,
    gets: Vec<Result<Option<Vec<u8>>, RocksDBError>>,
    read: CoreLoop<K, V>,
    observed: Option<usize>,
    left: Vec<K>,
    results: Vec<Option<V>>,
    k: int,
)
    requires
        writer.state is Waiting,
        exists|thread: &mut CoreLoop<K, V>|
            {
                &&& *thread == writer
                &&& *final(thread) == written
                &&& #[trigger] call_ensures(
                    CoreLoop::<K, V>::step,
                    (thread, Event::Received(Command::MultiPut { batch })),
                    Action::Write { writes, options },
                )
            },
        reader.state is Reading,
        exists|thread: &mut CoreLoop<K, V>|
            {
                &&& *thread == reader
                &&& *final(thread) == read
                &&& #[trigger] call_ensures(
                    CoreLoop::<K, V>::step,
                    (thread, Event::Gets { batch: keys, gets }),
                    Action::AnswerGet { observed, answer: Ok((left, results)) },
                )
            },
        0 <= i < batch@.len(),
        batch@[i].1 matches Some(value) && (V::encoding(value.model()) matches Some(bytes)
            ==> V::decoding(bytes) == Some(value.model())),
        0 <= k < gets@.len(),
        writes@[i] matches WriteOp::Put { value: bytes, .. } ==> (gets@[k] matches Ok(Some(stored))
            && stored@ == bytes@),
    ensures
        writes@[i] is Put,
        results@[results@.len() - gets@.len() + k] matches Some(value) && value.model()
            == batch@[i].1->0.model(),
{
    let write = Action::Write { writes, options };
    assert forall|j: int| 0 <= j < batch@.len() implies ((#[trigger] batch@[j]).1 matches Some(
        value,
    ) ==> V::encoding(value.model()) is Some) by {
        if batch@[j].1 is Some && V::encoding(batch@[j].1->0.model()) is None {
            unencodable_put_is_refused(writer, batch, j, written, write);
        }
    }
    put_is_written_as_encoded(writer, batch, written, write);
    let answer = Action::AnswerGet { observed, answer: Ok((left, results)) };
    let failed = |get: Result<Option<Seq<u8>>, Seq<char>>| get is Err;
    lemma_first_none(gets_view(gets@), failed);
    assert forall|j: int| 0 <= j < gets@.len() implies (#[trigger] gets@[j]) is Ok by {
        assert(!failed(gets_view(gets@)[j]));
    }
    assert forall|j: int| 0 <= j < gets@.len() implies ((#[trigger] gets@[j])->Ok_0 matches Some(
        bytes,
    ) ==> V::decoding(bytes@) is Some) by {
        if gets@[j]->Ok_0 is Some && V::decoding(gets@[j]->Ok_0->0@) is None {
            undecodable_read_is_reported(reader, keys, gets, j, read, answer);
        }
    }
    get_is_answered_as_decoded(reader, keys, gets, read, answer);
    assert(gets@[k] is Ok);
}

/// A thread takes every event that can happen to it where it stands: a command or the end of all
/// instances when it waits, RocksDB's answers to a read when it reads, and RocksDB's answer to a
/// batch of writes when it writes.
pub proof fn every_event_is_taken<K, V: Value>()
    ensures
        forall|thread: &mut CoreLoop<K, V>, command: Command<K, V>|
            thread.state is Waiting ==> #[trigger] call_requires(
                CoreLoop::<K, V>::step,
                (thread, Event::Received(command)),
            ),
        forall|thread: &mut CoreLoop<K, V>|
            thread.state is Waiting ==> #[trigger] call_requires(
                CoreLoop::<K, V>::step,
                (thread, Event::Disconnected),
            ),
        forall|
            thread: &mut CoreLoop<K, V>,
            batch: Vec<K>,
            gets: Vec<Result<Option<Vec<u8>>, RocksDBError>>,
        |
            thread.state is Reading ==> #[trigger] call_requires(
                CoreLoop::<K, V>::step,
                (thread, Event::Gets { batch, gets }),
            ),
        forall|thread: &mut CoreLoop<K, V>, written: Result<(), RocksDBError>|
            thread.state is Writing ==> #[trigger] call_requires(
                CoreLoop::<K, V>::step,
                (thread, Event::Written(written)),
            ),
{
}

/// A new thread waits for a command, and bypasses the wal exactly where the options do not ask for
/// it, whatever else they say.
pub proof fn new_thread_waits<K, V: Value, Env>(options: Options<Env>, thread: CoreLoop<K, V>)
    requires
        call_ensures(CoreLoop::<K, V>::new::<Env>, (&options,), thread),
    ensures
        thread.state is Waiting,
        thread.write_options.disable_wal <==> !options.use_wal,
        call_requires(CoreLoop::<K, V>::new::<Env>, (&options,)),
{
}

} // verus!
