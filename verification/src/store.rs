//! What RocksDB holds, and the laws that tie together what is put and what is got.
//!
//! A database is a map from the bytes of keys to bytes. `bytes_of` says throughout which bytes a
//! key of type `K` stands for; keys that stand for the same bytes are the same key to RocksDB.

use vstd::prelude::*;

use crate::core_loop::{
    decoded, first_error, first_undecodable, read_outcome, stored_of, undecodable, values_of,
    write_of, writes_of,
};
use crate::error::ErrorView;
use crate::search::lemma_first_none;
use crate::value::Value;

verus! {

/// What is stored under a key, if anything.
pub open spec fn lookup<M>(store: Map<Seq<u8>, M>, key: Seq<u8>) -> Option<M> {
    if store.contains_key(key) {
        Some(store[key])
    } else {
        None
    }
}

/// A map after one write: of a value under a key, or of nothing, which deletes the key.
pub open spec fn write_one<K, M>(
    store: Map<Seq<u8>, M>,
    bytes_of: spec_fn(K) -> Seq<u8>,
    write: (K, Option<M>),
) -> Map<Seq<u8>, M> {
    match write.1 {
        Some(value) => store.insert(bytes_of(write.0), value),
        None => store.remove(bytes_of(write.0)),
    }
}

/// A map after a batch of writes, which are made in their order.
pub open spec fn write_all<K, M>(
    store: Map<Seq<u8>, M>,
    bytes_of: spec_fn(K) -> Seq<u8>,
    writes: Seq<(K, Option<M>)>,
) -> Map<Seq<u8>, M>
    decreases writes.len(),
{
    if writes.len() == 0 {
        store
    } else {
        write_one(write_all(store, bytes_of, writes.drop_last()), bytes_of, writes.last())
    }
}

/// What RocksDB answers to a read of some keys where nothing goes wrong.
pub open spec fn read_all<K>(
    store: Map<Seq<u8>, Seq<u8>>,
    bytes_of: spec_fn(K) -> Seq<u8>,
    keys: Seq<K>,
) -> Seq<Result<Option<Seq<u8>>, Seq<char>>> {
    keys.map_values(|key: K| Ok::<_, Seq<char>>(lookup(store, bytes_of(key))))
}

/// The value that is stored under a key, if any.
pub open spec fn value_at<V: Value>(store: Map<Seq<u8>, Seq<u8>>, key: Seq<u8>) -> Option<V::Model> {
    decoded::<V>(lookup(store, key))
}

/// Nothing is stored under a key, or something that can be decoded.
pub open spec fn readable<V: Value>(store: Map<Seq<u8>, Seq<u8>>, key: Seq<u8>) -> bool {
    !undecodable::<V>(lookup(store, key))
}

/// A batch has a write of a key.
pub open spec fn mentions<K, M>(
    bytes_of: spec_fn(K) -> Seq<u8>,
    writes: Seq<(K, Option<M>)>,
    key: Seq<u8>,
) -> bool {
    exists|i: int| 0 <= i < writes.len() && bytes_of(#[trigger] writes[i].0) == key
}

/// The `i`-th write of a batch is the last one of its key.
pub open spec fn is_last_of_key<K, M>(
    bytes_of: spec_fn(K) -> Seq<u8>,
    writes: Seq<(K, Option<M>)>,
    i: int,
) -> bool {
    &&& 0 <= i < writes.len()
    &&& forall|j: int|
        i < j < writes.len() ==> bytes_of(#[trigger] writes[j].0) != bytes_of(writes[i].0)
}

/// If the same key appears multiple times in a batch, the last value for the key wins: it is what
/// the key holds afterwards. Where the last put has no value, the key is deleted.
pub proof fn last_write_wins<K, M>(
    store: Map<Seq<u8>, M>,
    bytes_of: spec_fn(K) -> Seq<u8>,
    writes: Seq<(K, Option<M>)>,
    i: int,
)
    requires
        is_last_of_key(bytes_of, writes, i),
    ensures
        lookup(write_all(store, bytes_of, writes), bytes_of(writes[i].0)) == writes[i].1,
    decreases writes.len(),
{
    if i < writes.len() - 1 {
        assert(bytes_of(writes[writes.len() - 1].0) != bytes_of(writes[i].0));
        let earlier = writes.drop_last();
        assert forall|j: int| i < j < earlier.len() implies bytes_of(#[trigger] earlier[j].0)
            != bytes_of(earlier[i].0) by {
            assert(bytes_of(writes[j].0) != bytes_of(writes[i].0));
        }
        last_write_wins(store, bytes_of, earlier, i);
    }
}

/// A key that a batch does not mention keeps what it holds.
pub proof fn other_keys_are_kept<K, M>(
    store: Map<Seq<u8>, M>,
    bytes_of: spec_fn(K) -> Seq<u8>,
    writes: Seq<(K, Option<M>)>,
    key: Seq<u8>,
)
    requires
        !mentions(bytes_of, writes, key),
    ensures
        lookup(write_all(store, bytes_of, writes), key) == lookup(store, key),
    decreases writes.len(),
{
    if writes.len() > 0 {
        let earlier = writes.drop_last();
        assert(!mentions(bytes_of, earlier, key)) by {
            assert forall|i: int| 0 <= i < earlier.len() implies bytes_of(#[trigger] earlier[i].0)
                != key by {
                assert(bytes_of(writes[i].0) != key);
            }
        }
        assert(bytes_of(writes[writes.len() - 1].0) != key);
        other_keys_are_kept(store, bytes_of, earlier, key);
    }
}

/// A batch that has a write of a key has a last one of it.
pub proof fn lemma_last_of_key<K, M>(
    bytes_of: spec_fn(K) -> Seq<u8>,
    writes: Seq<(K, Option<M>)>,
    key: Seq<u8>,
) -> (i: int)
    requires
        mentions(bytes_of, writes, key),
    ensures
        is_last_of_key(bytes_of, writes, i),
        bytes_of(writes[i].0) == key,
    decreases writes.len(),
{
    let last = writes.len() - 1;
    if bytes_of(writes[last].0) == key {
        last
    } else {
        let earlier = writes.drop_last();
        let j = choose|j: int| 0 <= j < writes.len() && bytes_of(#[trigger] writes[j].0) == key;
        assert(bytes_of(earlier[j].0) == key);
        let i = lemma_last_of_key(bytes_of, earlier, key);
        assert forall|j: int| i < j < writes.len() implies bytes_of(#[trigger] writes[j].0)
            != bytes_of(writes[i].0) by {
            if j < last {
                assert(bytes_of(earlier[j].0) != bytes_of(earlier[i].0));
            }
        }
        i
    }
}

/// Two batches written one after the other come to the same as both in one.
pub proof fn batches_join<K, M>(
    store: Map<Seq<u8>, M>,
    bytes_of: spec_fn(K) -> Seq<u8>,
    first: Seq<(K, Option<M>)>,
    second: Seq<(K, Option<M>)>,
)
    ensures
        write_all(write_all(store, bytes_of, first), bytes_of, second) == write_all(
            store,
            bytes_of,
            first + second,
        ),
    decreases second.len(),
{
    if second.len() == 0 {
        assert(first + second =~= first);
    } else {
        assert((first + second).drop_last() =~= first + second.drop_last());
        assert((first + second).last() == second.last());
        batches_join(store, bytes_of, first, second.drop_last());
    }
}

/// The writes of a batch of puts come to this: a key of the batch holds the encoding of the last
/// value that the batch has for it, or nothing where that put has no value; any other key holds
/// what it held.
pub proof fn puts_reach_the_store<K, V: Value>(
    store: Map<Seq<u8>, Seq<u8>>,
    bytes_of: spec_fn(K) -> Seq<u8>,
    puts: Seq<(K, Option<V::Model>)>,
)
    ensures
        forall|i: int|
            #![trigger puts[i]]
            is_last_of_key(bytes_of, puts, i) ==> lookup(
                write_all(store, bytes_of, writes_of::<K, V>(puts)),
                bytes_of(puts[i].0),
            ) == write_of::<K, V>(puts[i]).1,
        forall|key: Seq<u8>|
            #![trigger mentions(bytes_of, puts, key)]
            !mentions(bytes_of, puts, key) ==> lookup(
                write_all(store, bytes_of, writes_of::<K, V>(puts)),
                key,
            ) == lookup(store, key),
{
    let writes = writes_of::<K, V>(puts);
    assert forall|i: int| #![trigger puts[i]] is_last_of_key(bytes_of, puts, i) implies lookup(
        write_all(store, bytes_of, writes),
        bytes_of(puts[i].0),
    ) == write_of::<K, V>(puts[i]).1 by {
        assert forall|j: int| i < j < writes.len() implies bytes_of(#[trigger] writes[j].0)
            != bytes_of(writes[i].0) by {
            assert(bytes_of(puts[j].0) != bytes_of(puts[i].0));
        }
        last_write_wins(store, bytes_of, writes, i);
    }
    assert forall|key: Seq<u8>|
        #![trigger mentions(bytes_of, puts, key)]
        !mentions(bytes_of, puts, key) implies lookup(
        write_all(store, bytes_of, writes),
        key,
    ) == lookup(store, key) by {
        assert forall|i: int| 0 <= i < writes.len() implies bytes_of(#[trigger] writes[i].0)
            != key by {
            assert(bytes_of(puts[i].0) != key);
        }
        other_keys_are_kept(store, bytes_of, writes, key);
    }
}

/// A read of keys that hold nothing, or something that can be decoded, succeeds and gives for each
/// key the value that is stored under it, if any.
pub proof fn gets_read_the_store<K, V: Value>(
    store: Map<Seq<u8>, Seq<u8>>,
    bytes_of: spec_fn(K) -> Seq<u8>,
    keys: Seq<K>,
)
    requires
        forall|k: int| 0 <= k < keys.len() ==> readable::<V>(store, bytes_of(#[trigger] keys[k])),
    ensures
        first_error(read_all(store, bytes_of, keys)) is None,
        read_outcome::<V>(read_all(store, bytes_of, keys)) == Ok::<_, ErrorView>(
            keys.map_values(|key: K| value_at::<V>(store, bytes_of(key))),
        ),
{
    let gets = read_all(store, bytes_of, keys);
    lemma_first_none(gets, |get: Result<Option<Seq<u8>>, Seq<char>>| get is Err);
    let stored = stored_of(gets);
    lemma_first_none(stored, |bytes: Option<Seq<u8>>| undecodable::<V>(bytes));
    assert forall|k: int| 0 <= k < stored.len() implies !undecodable::<V>(#[trigger] stored[k]) by {
        assert(readable::<V>(store, bytes_of(keys[k])));
    }
    assert(first_undecodable::<V>(stored) is None);
    assert(values_of::<V>(stored) =~= keys.map_values(
        |key: K| value_at::<V>(store, bytes_of(key)),
    ));
}

} // verus!
