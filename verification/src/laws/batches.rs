//! What becomes of a batch on its way to RocksDB and back: the laws of [`encode_batch`],
//! [`collect_gets`] and [`decode_values`].

use vstd::prelude::*;

use crate::command::{
    gets_view, puts_model, results_model, stored_bytes, stored_view, writes_view, WriteOp,
};
use crate::core_loop::{
    collect_gets, decode_values, encode_batch, stored_of, undecodable, unencodable, values_of,
    writes_of,
};
use crate::error::RocksDBError;
use crate::search::{is_first, lemma_first_found, lemma_first_none};
use crate::value::Value;

verus! {

/// A batch is encoded exactly where each of its values can be encoded. It is emptied either way.
pub proof fn batch_is_encoded_as_a_whole<K, V: Value>(
    before: Vec<(K, Option<V>)>,
    after: Vec<(K, Option<V>)>,
    result: Result<Vec<WriteOp<K>>, bincode::Error>,
)
    requires
        exists|batch: &mut Vec<(K, Option<V>)>|
            {
                &&& *batch == before
                &&& *final(batch) == after
                &&& #[trigger] call_ensures(encode_batch::<K, V>, (batch,), result)
            },
    ensures
        after@.len() == 0,
        result is Err <==> exists|i: int|
            0 <= i < before@.len() && ((#[trigger] before@[i]).1 matches Some(value) && V::encoding(
                value.model(),
            ) is None),
{
    let puts = puts_model(before@);
    let bad = |put: (K, Option<V::Model>)| unencodable::<K, V>(put);
    lemma_first_none(puts, bad);
    if forall|i: int|
        0 <= i < before@.len() ==> !((#[trigger] before@[i]).1 matches Some(value) && V::encoding(
            value.model(),
        ) is None) {
        assert forall|i: int| 0 <= i < puts.len() implies !bad(#[trigger] puts[i]) by {
            assert(puts[i].0 == before@[i].0);
        }
    } else {
        let i = choose|i: int|
            0 <= i < before@.len() && ((#[trigger] before@[i]).1 matches Some(value) && V::encoding(
                value.model(),
            ) is None);
        assert(bad(puts[i]));
    }
}

/// Encoding a batch fails with the error of the first value that cannot be encoded.
pub proof fn first_encode_error_is_returned<K, V: Value>(
    before: Vec<(K, Option<V>)>,
    i: int,
    after: Vec<(K, Option<V>)>,
    result: Result<Vec<WriteOp<K>>, bincode::Error>,
)
    requires
        0 <= i < before@.len(),
        before@[i].1 matches Some(value) && V::encoding(value.model()) is None,
        forall|j: int|
            0 <= j < i ==> ((#[trigger] before@[j]).1 matches Some(value) ==> V::encoding(
                value.model(),
            ) is Some),
        exists|batch: &mut Vec<(K, Option<V>)>|
            {
                &&& *batch == before
                &&& *final(batch) == after
                &&& #[trigger] call_ensures(encode_batch::<K, V>, (batch,), result)
            },
    ensures
        result matches Err(e) && exists|value: V|
            {
                &&& value.model() == before@[i].1->0.model()
                &&& #[trigger] call_ensures(V::encode, (&value,), Err(e))
            },
{
    let puts = puts_model(before@);
    let bad = |put: (K, Option<V::Model>)| unencodable::<K, V>(put);
    assert(bad(puts[i]));
    assert forall|j: int| 0 <= j < i implies !bad(#[trigger] puts[j]) by {
        assert(puts[j].0 == before@[j].0);
    }
    assert(is_first(puts, bad, i));
    lemma_first_found(puts, bad, i);
}

/// An encoded batch has one write per put, in order: of the encoding of its value, or the deletion
/// of its key where it has none.
pub proof fn writes_are_the_encoded_puts<K, V: Value>(
    before: Vec<(K, Option<V>)>,
    after: Vec<(K, Option<V>)>,
    writes: Vec<WriteOp<K>>,
)
    requires
        exists|batch: &mut Vec<(K, Option<V>)>|
            {
                &&& *batch == before
                &&& *final(batch) == after
                &&& #[trigger] call_ensures(encode_batch::<K, V>, (batch,), Ok(writes))
            },
    ensures
        writes@.len() == before@.len(),
        forall|i: int|
            #![trigger writes@[i]]
            #![trigger before@[i]]
            0 <= i < before@.len() ==> match before@[i].1 {
                Some(value) => writes@[i] matches WriteOp::Put { key, value: bytes } && key
                    == before@[i].0 && V::encoding(value.model()) == Some(bytes@),
                None => writes@[i] matches WriteOp::Delete { key } && key == before@[i].0,
            },
{
    let puts = puts_model(before@);
    let bad = |put: (K, Option<V::Model>)| unencodable::<K, V>(put);
    lemma_first_none(puts, bad);
    assert(writes_view(writes@) == writes_of::<K, V>(puts));
    assert(writes_view(writes@).len() == writes@.len());
    assert forall|i: int|
        #![trigger writes@[i]]
        #![trigger before@[i]]
        0 <= i < before@.len() implies match before@[i].1 {
        Some(value) => writes@[i] matches WriteOp::Put { key, value: bytes } && key == before@[i].0
            && V::encoding(value.model()) == Some(bytes@),
        None => writes@[i] matches WriteOp::Delete { key } && key == before@[i].0,
    } by {
        assert(writes_view(writes@)[i] == writes_of::<K, V>(puts)[i]);
        assert(!bad(puts[i]));
    }
}

/// Where RocksDB gives an error for any key, the first error is what is collected.
pub proof fn first_error_is_collected(
    gets: Vec<Result<Option<Vec<u8>>, RocksDBError>>,
    i: int,
    result: Result<Vec<Option<Vec<u8>>>, RocksDBError>,
)
    requires
        0 <= i < gets@.len(),
        gets@[i] is Err,
        forall|j: int| 0 <= j < i ==> (#[trigger] gets@[j]) is Ok,
        call_ensures(collect_gets, (gets,), result),
    ensures
        result matches Err(e) && e.message@ == gets@[i]->Err_0.message@,
{
    let answers = gets_view(gets@);
    let bad = |get: Result<Option<Seq<u8>>, Seq<char>>| get is Err;
    assert(bad(answers[i]));
    assert forall|j: int| 0 <= j < i implies !bad(#[trigger] answers[j]) by {
        assert(gets@[j] is Ok);
    }
    assert(is_first(answers, bad, i));
    lemma_first_found(answers, bad, i);
}

/// Where RocksDB gives no error, everything that it read is collected, in order.
pub proof fn what_is_stored_is_collected(
    gets: Vec<Result<Option<Vec<u8>>, RocksDBError>>,
    result: Result<Vec<Option<Vec<u8>>>, RocksDBError>,
)
    requires
        forall|i: int| 0 <= i < gets@.len() ==> (#[trigger] gets@[i]) is Ok,
        call_ensures(collect_gets, (gets,), result),
    ensures
        result matches Ok(stored) && {
            &&& stored@.len() == gets@.len()
            &&& forall|i: int|
                #![trigger gets@[i]]
                0 <= i < gets@.len() ==> match (gets@[i]->Ok_0, stored@[i]) {
                    (Some(read), Some(bytes)) => bytes@ == read@,
                    (read, bytes) => read is None && bytes is None,
                }
        },
{
    let answers = gets_view(gets@);
    let bad = |get: Result<Option<Seq<u8>>, Seq<char>>| get is Err;
    lemma_first_none(answers, bad);
    assert forall|i: int| 0 <= i < answers.len() implies !bad(#[trigger] answers[i]) by {
        assert(gets@[i] is Ok);
    }
    let stored = result->Ok_0;
    assert(stored_view(stored@) == stored_of(answers));
    assert(stored_view(stored@).len() == stored@.len());
    assert forall|i: int| #![trigger gets@[i]] 0 <= i < gets@.len() implies match (
        gets@[i]->Ok_0,
        stored@[i],
    ) {
        (Some(read), Some(bytes)) => bytes@ == read@,
        (read, bytes) => read is None && bytes is None,
    } by {
        assert(gets@[i] is Ok);
        assert(stored_view(stored@)[i] == stored_of(answers)[i]);
        assert(stored_bytes(stored@[i]) == answers[i]->Ok_0);
    }
}

/// What is stored is decoded exactly where all of it can be decoded, wherever it stands.
pub proof fn stored_is_decoded_as_a_whole<V: Value>(
    stored: Vec<Option<Vec<u8>>>,
    scratch: Vec<Option<V>>,
    result: Result<Vec<Option<V>>, bincode::Error>,
)
    requires
        call_ensures(decode_values::<V>, (stored, scratch), result),
    ensures
        result is Err <==> exists|i: int|
            0 <= i < stored@.len() && (#[trigger] stored@[i] matches Some(bytes) && V::decoding(
                bytes@,
            ) is None),
{
    let bytes_in = stored_view(stored@);
    let bad = |bytes: Option<Seq<u8>>| undecodable::<V>(bytes);
    lemma_first_none(bytes_in, bad);
    if forall|i: int|
        0 <= i < stored@.len() ==> !(#[trigger] stored@[i] matches Some(bytes) && V::decoding(
            bytes@,
        ) is None) {
        assert forall|i: int| 0 <= i < bytes_in.len() implies !bad(#[trigger] bytes_in[i]) by {
            assert(bytes_in[i] == stored_bytes(stored@[i]));
        }
    } else {
        let i = choose|i: int|
            0 <= i < stored@.len() && (#[trigger] stored@[i] matches Some(bytes) && V::decoding(
                bytes@,
            ) is None);
        assert(bad(bytes_in[i]));
    }
}

/// Decoding fails with the error of the first stored bytes that cannot be decoded.
pub proof fn first_decode_error_is_returned<V: Value>(
    stored: Vec<Option<Vec<u8>>>,
    scratch: Vec<Option<V>>,
    i: int,
    result: Result<Vec<Option<V>>, bincode::Error>,
)
    requires
        0 <= i < stored@.len(),
        stored@[i] matches Some(bytes) && V::decoding(bytes@) is None,
        forall|j: int|
            0 <= j < i ==> (#[trigger] stored@[j] matches Some(bytes) ==> V::decoding(bytes@)
                is Some),
        call_ensures(decode_values::<V>, (stored, scratch), result),
    ensures
        result matches Err(e) && exists|bytes: &[u8]|
            {
                &&& bytes@ == stored@[i]->0@
                &&& #[trigger] call_ensures(V::decode, (bytes,), Err(e))
            },
{
    let bytes_in = stored_view(stored@);
    let bad = |bytes: Option<Seq<u8>>| undecodable::<V>(bytes);
    assert(bad(bytes_in[i]));
    assert forall|j: int| 0 <= j < i implies !bad(#[trigger] bytes_in[j]) by {
        assert(bytes_in[j] == stored_bytes(stored@[j]));
    }
    assert(is_first(bytes_in, bad, i));
    lemma_first_found(bytes_in, bad, i);
}

/// What comes of decoding is the scratch vector as it was and behind it, in order, the value of
/// each of the stored bytes, or nothing where nothing is stored.
pub proof fn results_are_the_decoded_values<V: Value>(
    stored: Vec<Option<Vec<u8>>>,
    scratch: Vec<Option<V>>,
    results: Vec<Option<V>>,
)
    requires
        call_ensures(decode_values::<V>, (stored, scratch), Ok(results)),
    ensures
        results@.len() == scratch@.len() + stored@.len(),
        forall|i: int|
            #![trigger scratch@[i]]
            0 <= i < scratch@.len() ==> match (scratch@[i], results@[i]) {
                (Some(given), Some(kept)) => given.model() == kept.model(),
                (given, kept) => given is None && kept is None,
            },
        forall|i: int|
            #![trigger stored@[i]]
            0 <= i < stored@.len() ==> match (stored@[i], results@[scratch@.len() + i]) {
                (Some(bytes), Some(value)) => V::decoding(bytes@) == Some(value.model()),
                (bytes, value) => bytes is None && value is None,
            },
{
    let bytes_in = stored_view(stored@);
    let bad = |bytes: Option<Seq<u8>>| undecodable::<V>(bytes);
    lemma_first_none(bytes_in, bad);
    let models = results_model(results@);
    assert(models == results_model(scratch@) + values_of::<V>(bytes_in));
    assert(models.len() == results@.len());
    assert forall|i: int| #![trigger scratch@[i]] 0 <= i < scratch@.len() implies match (
        scratch@[i],
        results@[i],
    ) {
        (Some(given), Some(kept)) => given.model() == kept.model(),
        (given, kept) => given is None && kept is None,
    } by {
        assert(models[i] == results_model(scratch@)[i]);
    }
    assert forall|i: int| #![trigger stored@[i]] 0 <= i < stored@.len() implies match (
        stored@[i],
        results@[scratch@.len() + i],
    ) {
        (Some(bytes), Some(value)) => V::decoding(bytes@) == Some(value.model()),
        (bytes, value) => bytes is None && value is None,
    } by {
        assert(!bad(bytes_in[i]));
        assert(models[scratch@.len() + i] == values_of::<V>(bytes_in)[i]);
    }
}

/// Batches of every size and content are taken.
pub proof fn every_batch_is_taken<K, V: Value>(
    gets: Vec<Result<Option<Vec<u8>>, RocksDBError>>,
    stored: Vec<Option<Vec<u8>>>,
    scratch: Vec<Option<V>>,
)
    ensures
        forall|batch: &mut Vec<(K, Option<V>)>|
            #[trigger] call_requires(encode_batch::<K, V>, (batch,)),
        call_requires(collect_gets, (gets,)),
        call_requires(decode_values::<V>, (stored, scratch)),
{
}

} // verus!
