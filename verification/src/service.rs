//! What callers can rely on: the laws of whole commands, from the thread's receipt to its answer.

use vstd::prelude::*;

use crate::command::{ActionView, CommandView, EventView};
use crate::core_loop::{
    core_step, expects, first_unencodable, unencodable, write_of, CoreView,
};
use crate::error::ErrorView;
use crate::options::WriteOptions;
use crate::search::{is_first, lemma_first_found, lemma_first_none};
use crate::store::{
    gets_read_the_store, is_last_of_key, lemma_last_of_key, lookup, mentions, puts_reach_the_store,
    read_all, readable, value_at, write_all,
};
use crate::value::{bytes_round_trip, round_trips, Value};

verus! {

/// Serving a `MultiGet` command of a waiting thread, with a RocksDB that holds `store` and does not
/// fail: where the thread then stands, and its answer.
pub open spec fn serve_get<K, V: Value>(
    write_options: WriteOptions,
    store: Map<Seq<u8>, Seq<u8>>,
    bytes_of: spec_fn(K) -> Seq<u8>,
    keys: Seq<K>,
) -> (CoreView<K, V::Model>, ActionView<K, V::Model>) {
    let received = EventView::Received(
        CommandView::MultiGet { batch: keys, results: Seq::empty() },
    );
    let (state, action) = core_step::<K, V>(write_options, CoreView::Waiting, received);
    match action {
        ActionView::MultiGet(batch) => core_step::<K, V>(
            write_options,
            state,
            EventView::Gets(read_all(store, bytes_of, batch)),
        ),
        _ => (state, action),
    }
}

/// Serving a `MultiPut` command of a waiting thread, with a RocksDB that holds `store` and does not
/// fail: what RocksDB then holds, where the thread then stands, and its answer.
pub open spec fn serve_put<K, V: Value>(
    write_options: WriteOptions,
    store: Map<Seq<u8>, Seq<u8>>,
    bytes_of: spec_fn(K) -> Seq<u8>,
    puts: Seq<(K, Option<V::Model>)>,
) -> (Map<Seq<u8>, Seq<u8>>, CoreView<K, V::Model>, ActionView<K, V::Model>) {
    let received = EventView::Received(CommandView::MultiPut { batch: puts });
    let (state, action) = core_step::<K, V>(write_options, CoreView::Waiting, received);
    match action {
        ActionView::Write(writes, _) => {
            let (state, action) = core_step::<K, V>(
                write_options,
                state,
                EventView::Written(Ok(())),
            );
            (write_all(store, bytes_of, writes), state, action)
        },
        _ => (store, state, action),
    }
}

/// The answer to a read of these results.
pub open spec fn got<K, M>(results: Seq<Option<M>>) -> ActionView<K, M> {
    ActionView::AnswerGet {
        observed: Some(results.len()),
        answer: Ok((Seq::empty(), results)),
    }
}

/// The answer to this number of puts.
pub open spec fn stored<K, M>(size: nat) -> ActionView<K, M> {
    ActionView::AnswerPut { observed: Some(size), answer: Ok(Seq::empty()) }
}

/// For each key a read places the stored value, if any.
pub proof fn get_gives_stored_values<K, V: Value>(
    write_options: WriteOptions,
    store: Map<Seq<u8>, Seq<u8>>,
    bytes_of: spec_fn(K) -> Seq<u8>,
    keys: Seq<K>,
)
    requires
        forall|k: int| 0 <= k < keys.len() ==> readable::<V>(store, bytes_of(#[trigger] keys[k])),
    ensures
        serve_get::<K, V>(write_options, store, bytes_of, keys) == (
            CoreView::<K, V::Model>::Waiting,
            got::<K, V::Model>(keys.map_values(|key: K| value_at::<V>(store, bytes_of(key)))),
        ),
{
    gets_read_the_store::<K, V>(store, bytes_of, keys);
    let values = keys.map_values(|key: K| value_at::<V>(store, bytes_of(key)));
    assert(Seq::<Option<V::Model>>::empty() + values =~= values);
}

/// For each key of a batch of puts the last value that the batch has for it is stored, or the key
/// deleted where that put has no value. Nothing else changes.
pub proof fn put_stores_values<K, V: Value>(
    write_options: WriteOptions,
    store: Map<Seq<u8>, Seq<u8>>,
    bytes_of: spec_fn(K) -> Seq<u8>,
    puts: Seq<(K, Option<V::Model>)>,
)
    requires
        first_unencodable::<K, V>(puts) is None,
    ensures
        ({
            let (after, state, answer) = serve_put::<K, V>(write_options, store, bytes_of, puts);
            &&& state == CoreView::<K, V::Model>::Waiting
            &&& answer == stored::<K, V::Model>(puts.len())
            &&& forall|i: int|
                #![trigger puts[i]]
                is_last_of_key(bytes_of, puts, i) ==> lookup(after, bytes_of(puts[i].0))
                    == write_of::<K, V>(puts[i]).1
            &&& forall|key: Seq<u8>|
                #![trigger mentions(bytes_of, puts, key)]
                !mentions(bytes_of, puts, key) ==> lookup(after, key) == lookup(store, key)
        }),
{
    puts_reach_the_store::<K, V>(store, bytes_of, puts);
}

/// What a key holds after a batch of puts can be decoded to what was put: the last value that the
/// batch has for the key round-trips, if there is one; a key that the batch does not mention was
/// readable before.
pub open spec fn readable_after<K, V: Value>(
    store: Map<Seq<u8>, Seq<u8>>,
    bytes_of: spec_fn(K) -> Seq<u8>,
    puts: Seq<(K, Option<V::Model>)>,
    key: Seq<u8>,
) -> bool {
    &&& forall|i: int|
        #![trigger puts[i]]
        is_last_of_key(bytes_of, puts, i) && bytes_of(puts[i].0) == key && puts[i].1 is Some
            ==> round_trips::<V>(puts[i].1->0)
    &&& !mentions(bytes_of, puts, key) ==> readable::<V>(store, key)
}

/// A batch of puts keeps keys readable.
pub proof fn put_keeps_keys_readable<K, V: Value>(
    write_options: WriteOptions,
    store: Map<Seq<u8>, Seq<u8>>,
    bytes_of: spec_fn(K) -> Seq<u8>,
    puts: Seq<(K, Option<V::Model>)>,
    key: Seq<u8>,
)
    requires
        first_unencodable::<K, V>(puts) is None,
        readable_after::<K, V>(store, bytes_of, puts, key),
    ensures
        readable::<V>(serve_put::<K, V>(write_options, store, bytes_of, puts).0, key),
{
    put_stores_values::<K, V>(write_options, store, bytes_of, puts);
    if mentions(bytes_of, puts, key) {
        let i = lemma_last_of_key(bytes_of, puts, key);
        assert(puts[i].1 is Some ==> round_trips::<V>(puts[i].1->0));
    }
}

/// A read gives back what was put: for a key of an earlier batch of puts, the last value that the
/// batch has for the key, or nothing where it was deleted; for any other key, what was stored
/// before.
pub proof fn get_gives_back_what_was_put<K, V: Value>(
    write_options: WriteOptions,
    store: Map<Seq<u8>, Seq<u8>>,
    bytes_of: spec_fn(K) -> Seq<u8>,
    puts: Seq<(K, Option<V::Model>)>,
    keys: Seq<K>,
)
    requires
        first_unencodable::<K, V>(puts) is None,
        forall|k: int|
            0 <= k < keys.len() ==> readable_after::<K, V>(
                store,
                bytes_of,
                puts,
                bytes_of(#[trigger] keys[k]),
            ),
    ensures
        ({
            let after = serve_put::<K, V>(write_options, store, bytes_of, puts).0;
            let (state, answer) = serve_get::<K, V>(write_options, after, bytes_of, keys);
            &&& state == CoreView::<K, V::Model>::Waiting
            &&& exists|results: Seq<Option<V::Model>>|
                {
                    &&& answer == #[trigger] got::<K, V::Model>(results)
                    &&& results.len() == keys.len()
                    &&& forall|i: int, k: int|
                        #![trigger puts[i], keys[k]]
                        is_last_of_key(bytes_of, puts, i) && 0 <= k < keys.len() && bytes_of(
                            keys[k],
                        ) == bytes_of(puts[i].0) ==> results[k] == puts[i].1
                    &&& forall|k: int|
                        #![trigger keys[k]]
                        0 <= k < keys.len() && !mentions(bytes_of, puts, bytes_of(keys[k]))
                            ==> results[k] == value_at::<V>(store, bytes_of(keys[k]))
                }
        }),
{
    let after = serve_put::<K, V>(write_options, store, bytes_of, puts).0;
    put_stores_values::<K, V>(write_options, store, bytes_of, puts);
    assert forall|k: int| 0 <= k < keys.len() implies readable::<V>(
        after,
        bytes_of(#[trigger] keys[k]),
    ) by {
        put_keeps_keys_readable::<K, V>(write_options, store, bytes_of, puts, bytes_of(keys[k]));
    }
    get_gives_stored_values::<K, V>(write_options, after, bytes_of, keys);
    let results = keys.map_values(|key: K| value_at::<V>(after, bytes_of(key)));
    assert forall|i: int, k: int|
        #![trigger puts[i], keys[k]]
        is_last_of_key(bytes_of, puts, i) && 0 <= k < keys.len() && bytes_of(keys[k]) == bytes_of(
            puts[i].0,
        ) implies results[k] == puts[i].1 by {
        assert(readable_after::<K, V>(store, bytes_of, puts, bytes_of(keys[k])));
    }
    assert(serve_get::<K, V>(write_options, after, bytes_of, keys).1 == got::<K, V::Model>(results));
}

/// Vectors of bytes always round-trip, so a read of keys that were put gives back whatever bytes
/// were put.
pub proof fn get_gives_back_bytes<K>(
    write_options: WriteOptions,
    store: Map<Seq<u8>, Seq<u8>>,
    bytes_of: spec_fn(K) -> Seq<u8>,
    puts: Seq<(K, Option<Seq<u8>>)>,
    keys: Seq<K>,
)
    requires
        forall|i: int|
            0 <= i < puts.len() && (#[trigger] puts[i]).1 is Some ==> puts[i].1->0.len()
                <= u64::MAX,
        forall|k: int|
            0 <= k < keys.len() ==> mentions(bytes_of, puts, bytes_of(#[trigger] keys[k])),
    ensures
        ({
            let after = serve_put::<K, Vec<u8>>(write_options, store, bytes_of, puts).0;
            let answer = serve_get::<K, Vec<u8>>(write_options, after, bytes_of, keys).1;
            &&& answer matches ActionView::AnswerGet { answer: Ok((_, results)), .. }
            &&& results.len() == keys.len()
            &&& forall|i: int, k: int|
                #![trigger puts[i], keys[k]]
                is_last_of_key(bytes_of, puts, i) && 0 <= k < keys.len() && bytes_of(keys[k])
                    == bytes_of(puts[i].0) ==> results[k] == puts[i].1
        }),
{
    lemma_first_none(puts, |put: (K, Option<Seq<u8>>)| unencodable::<K, Vec<u8>>(put));
    assert forall|k: int| 0 <= k < keys.len() implies readable_after::<K, Vec<u8>>(
        store,
        bytes_of,
        puts,
        bytes_of(#[trigger] keys[k]),
    ) by {
        assert forall|i: int|
            #![trigger puts[i]]
            is_last_of_key(bytes_of, puts, i) && puts[i].1 is Some implies round_trips::<Vec<u8>>(
            puts[i].1->0,
        ) by {
            bytes_round_trip(puts[i].1->0);
        }
    }
    get_gives_back_what_was_put::<K, Vec<u8>>(write_options, store, bytes_of, puts, keys);
}

/// A read and then a batch of puts of the same keys is an upsert. It replaces or deletes the values
/// of a set of keys and returns the previous ones: the read gives what was stored before, and
/// the next read of those keys gives what was put.
pub proof fn get_then_put_is_an_upsert<K, V: Value>(
    write_options: WriteOptions,
    store: Map<Seq<u8>, Seq<u8>>,
    bytes_of: spec_fn(K) -> Seq<u8>,
    puts: Seq<(K, Option<V::Model>)>,
)
    requires
        forall|i: int, j: int|
            0 <= i < j < puts.len() ==> bytes_of(#[trigger] puts[i].0) != bytes_of(
                #[trigger] puts[j].0,
            ),
        forall|i: int|
            0 <= i < puts.len() ==> readable::<V>(store, bytes_of(#[trigger] puts[i].0)),
        forall|i: int|
            0 <= i < puts.len() && (#[trigger] puts[i]).1 is Some ==> round_trips::<V>(
                puts[i].1->0,
            ),
    ensures
        ({
            let keys = puts.map_values(|put: (K, Option<V::Model>)| put.0);
            let previous = serve_get::<K, V>(write_options, store, bytes_of, keys).1;
            let after = serve_put::<K, V>(write_options, store, bytes_of, puts).0;
            let next = serve_get::<K, V>(write_options, after, bytes_of, keys).1;
            &&& previous == got::<K, V::Model>(
                keys.map_values(|key: K| value_at::<V>(store, bytes_of(key))),
            )
            &&& next == got::<K, V::Model>(puts.map_values(|put: (K, Option<V::Model>)| put.1))
        }),
{
    let keys = puts.map_values(|put: (K, Option<V::Model>)| put.0);
    assert forall|k: int| 0 <= k < keys.len() implies readable::<V>(
        store,
        bytes_of(#[trigger] keys[k]),
    ) by {
        assert(readable::<V>(store, bytes_of(puts[k].0)));
    }
    get_gives_stored_values::<K, V>(write_options, store, bytes_of, keys);
    lemma_first_none(puts, |put: (K, Option<V::Model>)| unencodable::<K, V>(put));
    assert forall|k: int| 0 <= k < keys.len() implies readable_after::<K, V>(
        store,
        bytes_of,
        puts,
        bytes_of(#[trigger] keys[k]),
    ) by {
        assert(bytes_of(puts[k].0) == bytes_of(keys[k]));
    }
    get_gives_back_what_was_put::<K, V>(write_options, store, bytes_of, puts, keys);
    let after = serve_put::<K, V>(write_options, store, bytes_of, puts).0;
    let next = serve_get::<K, V>(write_options, after, bytes_of, keys).1;
    let results = choose|results: Seq<Option<V::Model>>|
        {
            &&& next == #[trigger] got::<K, V::Model>(results)
            &&& results.len() == keys.len()
            &&& forall|i: int, k: int|
                #![trigger puts[i], keys[k]]
                is_last_of_key(bytes_of, puts, i) && 0 <= k < keys.len() && bytes_of(keys[k])
                    == bytes_of(puts[i].0) ==> results[k] == puts[i].1
        };
    assert forall|i: int| 0 <= i < puts.len() implies results[i] == (#[trigger] puts[i]).1 by {
        assert(is_last_of_key(bytes_of, puts, i));
        assert(keys[i] == puts[i].0);
    }
    assert(results =~= puts.map_values(|put: (K, Option<V::Model>)| put.1));
}

/// A batch with a value that cannot be encoded is answered with an encode error, writes nothing, and ends
/// the thread.
pub proof fn unencodable_put_writes_nothing<K, V: Value>(
    write_options: WriteOptions,
    store: Map<Seq<u8>, Seq<u8>>,
    bytes_of: spec_fn(K) -> Seq<u8>,
    puts: Seq<(K, Option<V::Model>)>,
)
    requires
        first_unencodable::<K, V>(puts) is Some,
    ensures
        serve_put::<K, V>(write_options, store, bytes_of, puts) == (
            store,
            CoreView::<K, V::Model>::Stopped,
            ActionView::<K, V::Model>::AnswerPut {
                observed: None,
                answer: Err(ErrorView::EncodeError),
            },
        ),
{
}

/// Where RocksDB answers a read with one answer per key, a successful answer has one result per
/// key.
pub proof fn results_fit_their_places<K, V: Value>(
    write_options: WriteOptions,
    keys: Seq<K>,
    gets: Seq<Result<Option<Seq<u8>>, Seq<char>>>,
)
    requires
        gets.len() == keys.len(),
    ensures
        ({
            let received = EventView::Received(
                CommandView::MultiGet { batch: keys, results: Seq::empty() },
            );
            let state = core_step::<K, V>(write_options, CoreView::Waiting, received).0;
            let action = core_step::<K, V>(write_options, state, EventView::Gets(gets)).1;
            action matches ActionView::AnswerGet { answer: Ok((_, results)), .. } ==> results.len()
                == keys.len()
        }),
{
}

/// A read in which RocksDB fails for some key is answered with its first error, whatever else was
/// read, and is not recorded in the metrics.
pub proof fn failed_read_is_reported<K, V: Value>(
    write_options: WriteOptions,
    results: Seq<Option<V::Model>>,
    size: nat,
    gets: Seq<Result<Option<Seq<u8>>, Seq<char>>>,
    i: int,
)
    requires
        0 <= i < gets.len(),
        gets[i] is Err,
        forall|j: int| 0 <= j < i ==> (#[trigger] gets[j]) is Ok,
    ensures
        core_step::<K, V>(
            write_options,
            CoreView::Reading { results, size },
            EventView::Gets(gets),
        ) == (
            CoreView::<K, V::Model>::Stopped,
            ActionView::<K, V::Model>::AnswerGet {
                observed: None,
                answer: Err(ErrorView::RocksDB(gets[i]->Err_0)),
            },
        ),
{
    let failed = |get: Result<Option<Seq<u8>>, Seq<char>>| get is Err;
    assert(is_first(gets, failed, i));
    lemma_first_found(gets, failed, i);
}

/// A command is served in at most two steps, the last of which answers it: a `MultiGet` command is
/// read and then answered, whatever RocksDB says; a `MultiPut` command is written and then
/// answered, or answered at once; a `Shutdown` command closes the database at once.
pub proof fn every_command_is_answered<K, V: Value>(
    write_options: WriteOptions,
    command: CommandView<K, V::Model>,
    gets: Seq<Result<Option<Seq<u8>>, Seq<char>>>,
    written: Result<(), Seq<char>>,
)
    ensures
        ({
            let (state, action) = core_step::<K, V>(
                write_options,
                CoreView::Waiting,
                EventView::Received(command),
            );
            let after_gets = core_step::<K, V>(write_options, state, EventView::Gets(gets)).1;
            let after_write = core_step::<K, V>(write_options, state, EventView::Written(written)).1;
            match command {
                CommandView::MultiGet { batch, .. } => {
                    &&& action == ActionView::<K, V::Model>::MultiGet(batch)
                    &&& expects(state, EventView::Gets(gets))
                    &&& after_gets is AnswerGet
                },
                CommandView::MultiPut { .. } => {
                    ||| action is AnswerPut
                    ||| action is Write && expects(state, EventView::Written(written))
                        && after_write is AnswerPut
                },
                CommandView::Shutdown => action == ActionView::<K, V::Model>::Close {
                    acknowledge: true,
                },
            }
        }),
{
}

/// The thread goes on exactly as long as nothing fails: it has ended after a step that answers a
/// command with an error or closes the database, and after no other; after a step that answers a
/// command with success it waits for the next one.
pub proof fn an_error_ends_the_thread<K, V: Value>(
    write_options: WriteOptions,
    state: CoreView<K, V::Model>,
    event: EventView<K, V::Model>,
)
    requires
        expects(state, event),
    ensures
        ({
            let (next, action) = core_step::<K, V>(write_options, state, event);
            match action {
                ActionView::MultiGet(_) => next is Reading,
                ActionView::Write(..) => next is Writing,
                ActionView::AnswerGet { answer, .. } => if answer is Ok {
                    next is Waiting
                } else {
                    next is Stopped
                },
                ActionView::AnswerPut { answer, .. } => if answer is Ok {
                    next is Waiting
                } else {
                    next is Stopped
                },
                ActionView::Close { .. } => next is Stopped,
            }
        }),
{
}

/// A thread that has ended serves nothing any more.
pub proof fn an_ended_thread_serves_nothing<K, M>(event: EventView<K, M>)
    ensures
        !expects(CoreView::<K, M>::Stopped, event),
{
}

/// The metrics record what RocksDB did: a read or a batch of writes is recorded, with its size,
/// where RocksDB did not fail, and only there.
pub proof fn metrics_record_what_rocksdb_did<K, V: Value>(
    write_options: WriteOptions,
    state: CoreView<K, V::Model>,
    event: EventView<K, V::Model>,
)
    requires
        expects(state, event),
    ensures
        match core_step::<K, V>(write_options, state, event).1 {
            ActionView::AnswerGet { observed, .. } => match (state, event) {
                (CoreView::Reading { size, .. }, EventView::Gets(gets)) => {
                    let failed = exists|i: int| 0 <= i < gets.len() && (#[trigger] gets[i]) is Err;
                    observed == if failed {
                        None
                    } else {
                        Some(size)
                    }
                },
                _ => false,
            },
            ActionView::AnswerPut { observed, .. } => match (state, event) {
                (CoreView::Writing { size, .. }, EventView::Written(Ok(()))) => observed == Some(
                    size,
                ),
                _ => observed is None,
            },
            _ => true,
        },
{
    if let EventView::Gets(gets) = event {
        lemma_first_none(gets, |get: Result<Option<Seq<u8>>, Seq<char>>| get is Err);
    }
}

/// Every batch of writes is made with the thread's write options.
pub proof fn writes_follow_the_write_options<K, V: Value>(
    write_options: WriteOptions,
    state: CoreView<K, V::Model>,
    event: EventView<K, V::Model>,
)
    requires
        expects(state, event),
    ensures
        core_step::<K, V>(write_options, state, event).1 matches ActionView::Write(_, options)
            ==> options == write_options,
{
}

} // verus!
