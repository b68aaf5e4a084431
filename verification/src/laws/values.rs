//! How values are stored: the laws of encoding and decoding, of any values and of vectors of bytes.

use vstd::prelude::*;

use crate::value::Value;

verus! {

/// Whether a value can be encoded, and to what bytes, depends on what it is mathematically alone:
/// values that are the same encode to the same bytes.
pub proof fn same_values_encode_alike<V: Value>(
    first: V,
    second: V,
    first_encoded: Result<Vec<u8>, bincode::Error>,
    second_encoded: Result<Vec<u8>, bincode::Error>,
)
    requires
        first.model() == second.model(),
        call_ensures(V::encode, (&first,), first_encoded),
        call_ensures(V::encode, (&second,), second_encoded),
    ensures
        match (first_encoded, second_encoded) {
            (Ok(bytes), Ok(others)) => bytes@ == others@,
            (encoded, other) => encoded is Err && other is Err,
        },
{
}

/// Whether bytes can be decoded, and to what value, depends on the bytes alone.
pub proof fn same_bytes_decode_alike<V: Value>(
    first: &[u8],
    second: &[u8],
    first_decoded: Result<V, bincode::Error>,
    second_decoded: Result<V, bincode::Error>,
)
    requires
        first@ == second@,
        call_ensures(V::decode, (first,), first_decoded),
        call_ensures(V::decode, (second,), second_decoded),
    ensures
        match (first_decoded, second_decoded) {
            (Ok(value), Ok(other)) => value.model() == other.model(),
            (decoded, other) => decoded is Err && other is Err,
        },
{
}

/// Every vector of bytes can be encoded, and its encoding has its bytes as they are behind eight
/// bytes of its length, the least significant first.
pub proof fn bytes_are_encoded(value: Vec<u8>, result: Result<Vec<u8>, bincode::Error>)
    requires
        call_ensures(<Vec<u8> as Value>::encode, (&value,), result),
    ensures
        result matches Ok(bytes) && {
            &&& bytes@.len() == 8 + value@.len()
            &&& bytes@.take(8) == vstd::bytes::spec_u64_to_le_bytes(value@.len() as u64)
            &&& bytes@.skip(8) == value@
        },
{
    vstd::bytes::lemma_auto_spec_u64_to_from_le_bytes();
    let bytes = result->Ok_0;
    assert(bytes@.take(8) =~= vstd::bytes::spec_u64_to_le_bytes(value@.len() as u64));
    assert(bytes@.skip(8) =~= value@);
}

/// Bytes are decoded exactly where eight bytes of a length are followed by at least that many
/// bytes, and to these. What comes behind them does not matter.
pub proof fn bytes_are_decoded(bytes: &[u8], result: Result<Vec<u8>, bincode::Error>)
    requires
        call_ensures(<Vec<u8> as Value>::decode, (bytes,), result),
    ensures
        bytes@.len() < 8 ==> result is Err,
        bytes@.len() >= 8 ==> {
            let len = vstd::bytes::spec_u64_from_le_bytes(bytes@.take(8));
            match result {
                Ok(value) => value@.len() == len && bytes@.len() >= 8 + len && value@
                    == bytes@.subrange(8, 8 + len),
                Err(_) => bytes@.len() < 8 + len,
            }
        },
{
}

/// Decoding gives back every vector of bytes that was encoded, whatever stands behind its encoding.
pub proof fn encoded_bytes_are_read_back(
    value: Vec<u8>,
    encoded: Result<Vec<u8>, bincode::Error>,
    rest: Seq<u8>,
    bytes: &[u8],
    result: Result<Vec<u8>, bincode::Error>,
)
    requires
        value@.len() <= u64::MAX,
        call_ensures(<Vec<u8> as Value>::encode, (&value,), encoded),
        encoded matches Ok(encoding) ==> bytes@ == encoding@ + rest,
        call_ensures(<Vec<u8> as Value>::decode, (bytes,), result),
    ensures
        encoded is Ok,
        result matches Ok(read) && read@ == value@,
{
    bytes_are_encoded(value, encoded);
    bytes_are_decoded(bytes, result);
    vstd::bytes::lemma_auto_spec_u64_to_from_le_bytes();
    let encoding = encoded->Ok_0;
    assert(bytes@.take(8) =~= encoding@.take(8));
    assert(bytes@.subrange(8, 8 + value@.len() as int) =~= encoding@.skip(8));
}

/// Vectors of bytes with the same encoding are the same.
pub proof fn encodings_differ(
    first: Vec<u8>,
    second: Vec<u8>,
    first_encoding: Vec<u8>,
    second_encoding: Vec<u8>,
)
    requires
        call_ensures(<Vec<u8> as Value>::encode, (&first,), Ok(first_encoding)),
        call_ensures(<Vec<u8> as Value>::encode, (&second,), Ok(second_encoding)),
        first_encoding@ == second_encoding@,
    ensures
        first@ == second@,
{
    bytes_are_encoded(first, Ok(first_encoding));
    bytes_are_encoded(second, Ok(second_encoding));
}

/// Every value can be handed to encoding, and all bytes to decoding.
pub proof fn every_value_is_taken<V: Value>(value: &V, bytes: &[u8])
    ensures
        call_requires(V::encode, (value,)),
        call_requires(V::decode, (bytes,)),
{
}

} // verus!
