use mz_rocksdb::Value;

#[test]
fn bytes_are_encoded_behind_their_length() {
    assert_eq!(
        vec![7u8, 8, 9].encode().unwrap(),
        vec![3, 0, 0, 0, 0, 0, 0, 0, 7, 8, 9]
    );
    assert_eq!(
        Vec::<u8>::new().encode().unwrap(),
        vec![0, 0, 0, 0, 0, 0, 0, 0]
    );
    let long = vec![5u8; 258];
    let encoded = long.encode().unwrap();
    assert_eq!(encoded.len(), 266);
    assert_eq!(encoded[..8], [2, 1, 0, 0, 0, 0, 0, 0]);
}

#[test]
fn bytes_are_decoded_from_behind_their_length() {
    let decoded = <Vec<u8> as Value>::decode(&[2, 0, 0, 0, 0, 0, 0, 0, 4, 5]).unwrap();
    assert_eq!(decoded, vec![4, 5]);
}

#[test]
fn trailing_bytes_are_ignored() {
    let decoded = <Vec<u8> as Value>::decode(&[1, 0, 0, 0, 0, 0, 0, 0, 4, 5, 6]).unwrap();
    assert_eq!(decoded, vec![4]);
}

#[test]
fn short_input_is_not_decoded() {
    assert!(<Vec<u8> as Value>::decode(&[]).is_err());
    assert!(<Vec<u8> as Value>::decode(&[1, 0, 0, 0, 0, 0, 0]).is_err());
    assert!(<Vec<u8> as Value>::decode(&[2, 0, 0, 0, 0, 0, 0, 0, 4]).is_err());
    assert!(<Vec<u8> as Value>::decode(&[255; 8]).is_err());
}

#[test]
fn bytes_round_trip() {
    for len in [0usize, 1, 7, 8, 255, 256, 70000] {
        let value: Vec<u8> = (0..len).map(|i| (i % 251) as u8).collect();
        let encoded = value.encode().unwrap();
        assert_eq!(<Vec<u8> as Value>::decode(&encoded).unwrap(), value);
    }
}
