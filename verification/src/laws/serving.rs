//! What serving a command comes to: the laws of steps and of whole commands, stated of encodings
//! and decodings themselves and of the place of a key or a put in its batch.

use vstd::prelude::*;

use crate::command::{ActionView, EventView};
use crate::core_loop::{core_step, stored_of, undecodable, unencodable, CoreView};
use crate::error::ErrorView;
use crate::options::WriteOptions;
use crate::search::lemma_first_none;
use crate::service::{get_gives_stored_values, put_stores_values, serve_get, serve_put};
use crate::store::{is_last_of_key, lookup, mentions, read_all, readable};
use crate::value::Value;

verus! {

/// Whatever the options, a waiting thread that no command can reach any more closes the database
/// and ends.
pub proof fn unreachable_thread_ends<K, V: Value>(write_options: WriteOptions)
    ensures
        core_step::<K, V>(write_options, CoreView::Waiting, EventView::Disconnected) == (
            CoreView::<K, V::Model>::Stopped,
            ActionView::<K, V::Model>::Close { acknowledge: false },
        ),
{
}

/// Whatever the batch and its size, a failed write is answered with RocksDB's message and ends the
/// thread.
pub proof fn failed_write_ends_the_thread<K, V: Value>(
    write_options: WriteOptions,
    batch: Seq<(K, Option<V::Model>)>,
    size: nat,
    message: Seq<char>,
)
    ensures
        core_step::<K, V>(
            write_options,
            CoreView::Writing { batch, size },
            EventView::Written(Err(message)),
        ) == (
            CoreView::<K, V::Model>::Stopped,
            ActionView::<K, V::Model>::AnswerPut {
                observed: None,
                answer: Err(ErrorView::RocksDB(message)),
            },
        ),
{
}

/// Wherever in a batch the bytes of a key cannot be decoded, a read in which RocksDB does not fail
/// is answered with a decode error and ends the thread.
pub proof fn undecodable_read_ends_the_thread<K, V: Value>(
    write_options: WriteOptions,
    results: Seq<Option<V::Model>>,
    size: nat,
    gets: Seq<Result<Option<Seq<u8>>, Seq<char>>>,
    i: int,
)
    requires
        forall|j: int| 0 <= j < gets.len() ==> (#[trigger] gets[j]) is Ok,
        0 <= i < gets.len(),
        gets[i]->Ok_0 matches Some(bytes) && V::decoding(bytes) is None,
    ensures
        core_step::<K, V>(
            write_options,
            CoreView::Reading { results, size },
            EventView::Gets(gets),
        ) == (
            CoreView::<K, V::Model>::Stopped,
            ActionView::<K, V::Model>::AnswerGet {
                observed: Some(size),
                answer: Err(ErrorView::DecodeError),
            },
        ),
{
    lemma_first_none(gets, |get: Result<Option<Seq<u8>>, Seq<char>>| get is Err);
    let bad = |bytes: Option<Seq<u8>>| undecodable::<V>(bytes);
    assert(gets[i] is Ok);
    assert(bad(stored_of(gets)[i]));
    lemma_first_none(stored_of(gets), bad);
}

/// A read of keys that all hold nothing or bytes that can be decoded is answered, at the place of
/// each key, with the value that the bytes of the key decode to, or with nothing where it holds
/// nothing. That decoding gives the value is all that counts: how the bytes came to be does not
/// matter.
pub proof fn get_gives_decoded_values<K, V: Value>(
    write_options: WriteOptions,
    store: Map<Seq<u8>, Seq<u8>>,
    bytes_of: spec_fn(K) -> Seq<u8>,
    keys: Seq<K>,
)
    requires
        forall|k: int|
            0 <= k < keys.len() && store.contains_key(bytes_of(#[trigger] keys[k])) ==> V::decoding(
                store[bytes_of(keys[k])],
            ) is Some,
    ensures
        ({
            let (state, action) = serve_get::<K, V>(write_options, store, bytes_of, keys);
            &&& state is Waiting
            &&& action matches ActionView::AnswerGet { observed, answer: Ok((batch, results)) }
            &&& observed == Some(keys.len())
            &&& batch.len() == 0
            &&& results.len() == keys.len()
            &&& forall|k: int|
                #![trigger keys[k]]
                #![trigger results[k]]
                0 <= k < keys.len() ==> if store.contains_key(bytes_of(keys[k])) {
                    results[k] is Some && V::decoding(store[bytes_of(keys[k])]) == results[k]
                } else {
                    results[k] is None
                }
        }),
{
    assert forall|k: int| 0 <= k < keys.len() implies readable::<V>(
        store,
        bytes_of(#[trigger] keys[k]),
    ) by {}
    get_gives_stored_values::<K, V>(write_options, store, bytes_of, keys);
}

/// Wherever in a read the bytes that a key holds cannot be decoded, the read is answered with a
/// decode error.
pub proof fn get_of_undecodable_bytes_fails<K, V: Value>(
    write_options: WriteOptions,
    store: Map<Seq<u8>, Seq<u8>>,
    bytes_of: spec_fn(K) -> Seq<u8>,
    keys: Seq<K>,
    k: int,
)
    requires
        0 <= k < keys.len(),
        store.contains_key(bytes_of(keys[k])),
        V::decoding(store[bytes_of(keys[k])]) is None,
    ensures
        ({
            let (state, action) = serve_get::<K, V>(write_options, store, bytes_of, keys);
            &&& state is Stopped
            &&& action == ActionView::<K, V::Model>::AnswerGet {
                observed: Some(keys.len()),
                answer: Err(ErrorView::DecodeError),
            }
        }),
{
    let gets = read_all(store, bytes_of, keys);
    assert(gets[k]->Ok_0 == Some(store[bytes_of(keys[k])]));
    undecodable_read_ends_the_thread::<K, V>(
        write_options,
        Seq::empty(),
        keys.len(),
        gets,
        k,
    );
}

/// Wherever in a batch of puts a value cannot be encoded, the batch leaves the store as it was and
/// is answered with an encode error.
pub proof fn put_of_an_unencodable_value_fails<K, V: Value>(
    write_options: WriteOptions,
    store: Map<Seq<u8>, Seq<u8>>,
    bytes_of: spec_fn(K) -> Seq<u8>,
    puts: Seq<(K, Option<V::Model>)>,
    i: int,
)
    requires
        0 <= i < puts.len(),
        puts[i].1 matches Some(model) && V::encoding(model) is None,
    ensures
        serve_put::<K, V>(write_options, store, bytes_of, puts) == (
            store,
            CoreView::<K, V::Model>::Stopped,
            ActionView::<K, V::Model>::AnswerPut {
                observed: None,
                answer: Err(ErrorView::EncodeError),
            },
        ),
{
    let bad = |put: (K, Option<V::Model>)| unencodable::<K, V>(put);
    assert(bad(puts[i]));
    lemma_first_none(puts, bad);
}

/// A batch of puts in which every value can be encoded is stored: the last put of a key leaves the
/// encoding of its value under the key, or nothing where it has no value, and a key that has no put
/// in the batch holds what it held.
pub proof fn put_stores_encoded_values<K, V: Value>(
    write_options: WriteOptions,
    store: Map<Seq<u8>, Seq<u8>>,
    bytes_of: spec_fn(K) -> Seq<u8>,
    puts: Seq<(K, Option<V::Model>)>,
)
    requires
        forall|i: int|
            0 <= i < puts.len() ==> ((#[trigger] puts[i]).1 matches Some(model) ==> V::encoding(
                model,
            ) is Some),
    ensures
        ({
            let (after, state, action) = serve_put::<K, V>(write_options, store, bytes_of, puts);
            &&& state is Waiting
            &&& action == ActionView::<K, V::Model>::AnswerPut {
                observed: Some(puts.len()),
                answer: Ok(Seq::empty()),
            }
            &&& forall|i: int|
                #![trigger puts[i]]
                0 <= i < puts.len() && (forall|j: int|
                    i < j < puts.len() ==> bytes_of(#[trigger] puts[j].0) != bytes_of(puts[i].0))
                    ==> match puts[i].1 {
                    Some(model) => after.contains_key(bytes_of(puts[i].0)) && V::encoding(model)
                        == Some(after[bytes_of(puts[i].0)]),
                    None => !after.contains_key(bytes_of(puts[i].0)),
                }
            &&& forall|key: Seq<u8>|
                (forall|i: int| 0 <= i < puts.len() ==> bytes_of(#[trigger] puts[i].0) != key) ==> {
                    &&& #[trigger] after.contains_key(key) == store.contains_key(key)
                    &&& store.contains_key(key) ==> after[key] == store[key]
                }
        }),
{
    let bad = |put: (K, Option<V::Model>)| unencodable::<K, V>(put);
    lemma_first_none(puts, bad);
    assert forall|i: int| 0 <= i < puts.len() implies !bad(#[trigger] puts[i]) by {}
    put_stores_values::<K, V>(write_options, store, bytes_of, puts);
    let after = serve_put::<K, V>(write_options, store, bytes_of, puts).0;
    assert forall|i: int|
        #![trigger puts[i]]
        0 <= i < puts.len() && (forall|j: int|
            i < j < puts.len() ==> bytes_of(#[trigger] puts[j].0) != bytes_of(
                puts[i].0,
            )) implies match puts[i].1 {
        Some(model) => after.contains_key(bytes_of(puts[i].0)) && V::encoding(model) == Some(
            after[bytes_of(puts[i].0)],
        ),
        None => !after.contains_key(bytes_of(puts[i].0)),
    } by {
        assert(is_last_of_key(bytes_of, puts, i));
        assert(!bad(puts[i]));
    }
    assert forall|key: Seq<u8>|
        (forall|i: int| 0 <= i < puts.len() ==> bytes_of(#[trigger] puts[i].0) != key) implies {
        &&& #[trigger] after.contains_key(key) == store.contains_key(key)
        &&& store.contains_key(key) ==> after[key] == store[key]
    } by {
        assert(!mentions(bytes_of, puts, key));
        assert(lookup(after, key) == lookup(store, key));
    }
}

} // verus!
