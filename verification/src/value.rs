//! Values and their encoding: what is stored in RocksDB under a key is the bincode encoding of a
//! value.

use vstd::prelude::*;

verus! {

/// A value that can be stored: it has an encoding to bytes and can be read back from bytes.
///
/// Contracts speak of a value by its `model`. Encoding depends on the model alone, and decoding on
/// the bytes alone. Neither need succeed, and nothing here demands that decoding undoes encoding:
/// where that holds is stated by [`round_trips`].
///
/// A type outside of verified code gives its `Model`, `encode` and `decode` and leaves out the three
/// spec functions. It is trusted that for some choice of them its `encode` and `decode` meet the
/// contracts here.
pub trait Value: Sized {
    /// What a value is mathematically.
    type Model;

    /// What this value is mathematically.
    closed spec fn model(&self) -> Self::Model {
        arbitrary()
    }

    /// The bytes that encode a value, where it can be encoded.
    closed spec fn encoding(model: Self::Model) -> Option<Seq<u8>> {
        arbitrary()
    }

    /// The value that bytes decode to, where they can be decoded.
    closed spec fn decoding(bytes: Seq<u8>) -> Option<Self::Model> {
        arbitrary()
    }

    /// Encodes the value.
    fn encode(&self) -> (result: Result<Vec<u8>, bincode::Error>)
        ensures
            match result {
                Ok(bytes) => Self::encoding(self.model()) == Some(bytes@),
                Err(_) => Self::encoding(self.model()) is None,
            },
    ;

    /// Decodes a value from bytes.
    fn decode(bytes: &[u8]) -> (result: Result<Self, bincode::Error>)
        ensures
            match result {
                Ok(value) => Self::decoding(bytes@) == Some(value.model()),
                Err(_) => Self::decoding(bytes@) is None,
            },
    ;
}

/// A value can be encoded, and decoding its encoding gives it back.
pub open spec fn round_trips<V: Value>(model: V::Model) -> bool {
    match V::encoding(model) {
        Some(bytes) => V::decoding(bytes) == Some(model),
        None => false,
    }
}

/// `e` is an error that encoding a value modelled by `model` can give.
pub open spec fn encode_fails_with<V: Value>(model: V::Model, e: bincode::Error) -> bool {
    exists|value: V|
        value.model() == model && #[trigger] call_ensures(V::encode, (&value,), Err(e))
}

/// `e` is an error that decoding `bytes` can give.
pub open spec fn decode_fails_with<V: Value>(bytes: Seq<u8>, e: bincode::Error) -> bool {
    exists|slice: &[u8]| slice@ == bytes && #[trigger] call_ensures(V::decode, (slice,), Err(e))
}

/// The bincode encoding of a sequence of bytes: its length as eight bytes, the least significant
/// first, and then the bytes.
pub open spec fn bytes_encoding(bytes: Seq<u8>) -> Seq<u8> {
    vstd::bytes::spec_u64_to_le_bytes(bytes.len() as u64) + bytes
}

/// The sequence of bytes that starts an encoding: eight bytes of length and that many bytes. What
/// follows them is not looked at; where there are fewer, nothing is encoded.
pub open spec fn bytes_decoding(encoded: Seq<u8>) -> Option<Seq<u8>> {
    if encoded.len() < 8 {
        None
    } else {
        let len = vstd::bytes::spec_u64_from_le_bytes(encoded.take(8)) as int;
        if encoded.len() < 8 + len {
            None
        } else {
            Some(encoded.subrange(8, 8 + len))
        }
    }
}

/// Calls `bincode::serialize_into` with a vector of bytes.
///
/// Trusted: it does not fail, and it appends to `buf` the number of the bytes as a little-endian
/// `u64` and then each byte as it is.
#[verifier::external_body]
fn bincode_serialize_into(buf: &mut Vec<u8>, value: &Vec<u8>) -> (result: Result<
    (),
    bincode::Error,
>)
    ensures
        result is Ok,
        final(buf)@ == old(buf)@ + bytes_encoding(value@),
{
    bincode::serialize_into::<&mut Vec<u8>, _>(buf, value)
}

/// Calls `bincode::deserialize` for a vector of bytes.
///
/// Trusted: it reads a little-endian `u64` and then that many bytes, which it returns; it fails
/// where the input ends before them, and only there. Bytes that are left over are ignored.
#[verifier::external_body]
fn bincode_deserialize(encoded: &[u8]) -> (result: Result<Vec<u8>, bincode::Error>)
    ensures
        match result {
            Ok(value) => bytes_decoding(encoded@) == Some(value@),
            Err(_) => bytes_decoding(encoded@) is None,
        },
{
    bincode::deserialize(encoded)
}

impl Value for Vec<u8> {
    type Model = Seq<u8>;

    open spec fn model(&self) -> Seq<u8> {
        self@
    }

    open spec fn encoding(model: Seq<u8>) -> Option<Seq<u8>> {
        Some(bytes_encoding(model))
    }

    open spec fn decoding(bytes: Seq<u8>) -> Option<Seq<u8>> {
        bytes_decoding(bytes)
    }

    fn encode(&self) -> (result: Result<Vec<u8>, bincode::Error>) {
        let mut encode_buf: Vec<u8> = Vec::new();
        match bincode_serialize_into(&mut encode_buf, self) {
            Ok(()) => {
                assert(encode_buf@ =~= bytes_encoding(self@));
                Ok(encode_buf)
            },
            Err(e) => Err(e),
        }
    }

    fn decode(bytes: &[u8]) -> (result: Result<Self, bincode::Error>) {
        bincode_deserialize(bytes)
    }
}

/// Every vector of bytes round-trips: what is read back of its encoding is the vector.
pub proof fn bytes_round_trip(bytes: Seq<u8>)
    requires
        bytes.len() <= u64::MAX,
    ensures
        round_trips::<Vec<u8>>(bytes),
{
    let encoded = bytes_encoding(bytes);
    let prefix = vstd::bytes::spec_u64_to_le_bytes(bytes.len() as u64);
    vstd::bytes::lemma_auto_spec_u64_to_from_le_bytes();
    assert(encoded.take(8) =~= prefix);
    assert(encoded.subrange(8, 8 + bytes.len() as int) =~= bytes);
}

} // verus!
