use stream_ledger::codec::{decode_key, decode_stream, encode_key, encode_stream, DataKey};
use stream_ledger::stream::Stream;

#[test]
fn datakey_stream_serializes_deterministically_and_works_in_storage() {
    let key = DataKey::Stream(42);

    let key_bytes_a = encode_key(&key);
    let key_bytes_b = encode_key(&key);
    assert_eq!(key_bytes_a, key_bytes_b);

    // The namespace tag "Stream" in ASCII, then the id in little-endian.
    let mut expected_key_bytes: Vec<u8> = vec![83, 116, 114, 101, 97, 109];
    expected_key_bytes.extend_from_slice(&[42, 0, 0, 0, 0, 0, 0, 0]);
    assert_eq!(key_bytes_a, expected_key_bytes);

    let decoded_key = decode_key(&key_bytes_a).unwrap();
    assert_eq!(decoded_key, key);

    let stream = Stream {
        sender: 11,
        recipient: 22,
        token_address: 33,
        rate_per_second: 100,
        deposited_amount: 1_000,
        withdrawn_amount: 0,
        start_time: 1,
        last_update_time: 1,
        is_active: true,
    };

    // A toy byte-keyed store: set the record under its key, get it back.
    let mut storage: Vec<(Vec<u8>, Vec<u8>)> = Vec::new();
    storage.push((encode_key(&key), encode_stream(&stream)));
    let (_, stored_bytes) = storage
        .iter()
        .find(|entry| entry.0 == key_bytes_a)
        .unwrap();
    let stored = decode_stream(stored_bytes).unwrap();
    assert_eq!(stored, stream);
}

#[test]
fn counter_key_round_trips() {
    let key = DataKey::NextStreamId;
    let bytes = encode_key(&key);
    // The ASCII of "NextStreamId".
    assert_eq!(bytes, vec![78, 101, 120, 116, 83, 116, 114, 101, 97, 109, 73, 100]);
    assert_eq!(decode_key(&bytes), Some(key));
}

#[test]
fn distinct_keys_never_collide() {
    let keys = [
        DataKey::NextStreamId,
        DataKey::Stream(0),
        DataKey::Stream(1),
        DataKey::Stream(42),
        DataKey::Stream(u64::MAX),
    ];
    for a in keys.iter() {
        for b in keys.iter() {
            assert_eq!(encode_key(a) == encode_key(b), a == b);
        }
    }
}

#[test]
fn decode_key_rejects_foreign_bytes() {
    assert_eq!(decode_key(&[]), None);
    assert_eq!(decode_key(&[83, 116, 114, 101, 97, 109]), None);
    let mut almost: Vec<u8> = vec![83, 116, 114, 101, 97, 110];
    almost.extend_from_slice(&[42, 0, 0, 0, 0, 0, 0, 0]);
    assert_eq!(decode_key(&almost), None);
    assert_eq!(
        decode_key(&[78, 101, 120, 116, 83, 116, 114, 101, 97, 109, 73, 101]),
        None
    );
}

#[test]
fn inactive_stream_record_round_trips() {
    let stream = Stream {
        sender: u64::MAX,
        recipient: 0,
        token_address: 7,
        rate_per_second: 1,
        deposited_amount: i128::MAX,
        withdrawn_amount: i128::MAX,
        start_time: u64::MAX,
        last_update_time: 0,
        is_active: false,
    };
    let bytes = encode_stream(&stream);
    assert_eq!(bytes.len(), 89);
    assert_eq!(decode_stream(&bytes), Some(stream));
}

#[test]
fn decode_stream_rejects_malformed_bytes() {
    assert_eq!(decode_stream(&[]), None);
    assert_eq!(decode_stream(&[0; 88]), None);
    assert_eq!(decode_stream(&[0; 90]), None);

    let stream = Stream {
        sender: 1,
        recipient: 2,
        token_address: 3,
        rate_per_second: 5,
        deposited_amount: 500,
        withdrawn_amount: 0,
        start_time: 0,
        last_update_time: 0,
        is_active: true,
    };
    let mut bytes = encode_stream(&stream);
    // An activity byte other than 0 or 1 is not something the encoder
    // produces, so it is rejected.
    bytes[88] = 2;
    assert_eq!(decode_stream(&bytes), None);
    // An amount past the signed range is rejected.
    let mut high_amount = encode_stream(&stream);
    high_amount[55] = 0xff;
    assert_eq!(decode_stream(&high_amount), None);
}
