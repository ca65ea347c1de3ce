//! The storage-boundary encoding of the ledger's keys and records.
//!
//! The durable store is a byte-keyed map, so the same logical key must
//! always produce byte-identical bytes. Keys carry their namespace tag as
//! plain ASCII followed by the little-endian id; records are a fixed
//! 89-byte layout. Decoding validates shape and range and returns `None`
//! for anything the encoder could not have produced.

use vstd::prelude::*;

verus! {

use vstd::bytes::{
    lemma_auto_spec_u128_to_from_le_bytes, lemma_auto_spec_u64_to_from_le_bytes,
    spec_u128_from_le_bytes, spec_u128_to_le_bytes, spec_u64_from_le_bytes, spec_u64_to_le_bytes,
    u128_from_le_bytes, u128_to_le_bytes, u64_from_le_bytes, u64_to_le_bytes,
};
use crate::stream::Stream;

/// A key of the durable store: the single id counter, or one stream record
/// addressed by its id.
#[derive(Clone, Copy, Debug, PartialEq, Eq, Structural)]
pub enum DataKey {
    /// The process-wide counter holding the last issued stream id.
    NextStreamId,
    /// The record of the stream with this id.
    Stream(u64),
}

/// The ASCII namespace tag of the counter key.
pub open spec fn counter_tag() -> Seq<u8> {
    seq![78u8, 101u8, 120u8, 116u8, 83u8, 116u8, 114u8, 101u8, 97u8, 109u8, 73u8, 100u8]
}

/// The ASCII namespace tag of a stream-record key.
pub open spec fn stream_tag() -> Seq<u8> {
    seq![83u8, 116u8, 114u8, 101u8, 97u8, 109u8]
}

/// The bytes a key is stored under: the tag alone for the counter, the tag
/// followed by the little-endian id for a record.
pub open spec fn spec_encode_key(k: DataKey) -> Seq<u8> {
    match k {
        DataKey::NextStreamId => counter_tag(),
        DataKey::Stream(id) => stream_tag() + spec_u64_to_le_bytes(id),
    }
}

/// The key some bytes decode to, if the encoder could have produced them.
pub open spec fn spec_decode_key(b: Seq<u8>) -> Option<DataKey> {
    if b == counter_tag() {
        Some(DataKey::NextStreamId)
    } else if b.len() == 14 && b.subrange(0, 6) == stream_tag() {
        Some(DataKey::Stream(spec_u64_from_le_bytes(b.subrange(6, 14))))
    } else {
        None
    }
}

/// A record the byte layout can hold: the three token amounts are
/// non-negative, as every record the ledger writes satisfies.
pub open spec fn storable_stream(s: Stream) -> bool {
    &&& s.rate_per_second >= 0
    &&& s.deposited_amount >= 0
    &&& s.withdrawn_amount >= 0
}

/// The 89-byte layout of a record: three 8-byte principals, three 16-byte
/// amounts, two 8-byte timestamps, one activity byte, all little-endian.
pub open spec fn spec_encode_stream(s: Stream) -> Seq<u8> {
    spec_u64_to_le_bytes(s.sender) + spec_u64_to_le_bytes(s.recipient) + spec_u64_to_le_bytes(
        s.token_address,
    ) + spec_u128_to_le_bytes(s.rate_per_second as u128) + spec_u128_to_le_bytes(
        s.deposited_amount as u128,
    ) + spec_u128_to_le_bytes(s.withdrawn_amount as u128) + spec_u64_to_le_bytes(s.start_time)
        + spec_u64_to_le_bytes(s.last_update_time) + seq![
        if s.is_active {
            1u8
        } else {
            0u8
        },
    ]
}

/// The record some bytes decode to, if the encoder could have produced
/// them: the length, the amount ranges and the activity byte are checked.
pub open spec fn spec_decode_stream(b: Seq<u8>) -> Option<Stream> {
    if b.len() != 89 {
        None
    } else {
        let rate = spec_u128_from_le_bytes(b.subrange(24, 40));
        let deposited = spec_u128_from_le_bytes(b.subrange(40, 56));
        let withdrawn = spec_u128_from_le_bytes(b.subrange(56, 72));
        let active_byte = b[88];
        if rate <= i128::MAX as u128 && deposited <= i128::MAX as u128 && withdrawn <= i128::MAX
            as u128 && (active_byte == 0 || active_byte == 1) {
            Some(
                Stream {
                    sender: spec_u64_from_le_bytes(b.subrange(0, 8)),
                    recipient: spec_u64_from_le_bytes(b.subrange(8, 16)),
                    token_address: spec_u64_from_le_bytes(b.subrange(16, 24)),
                    rate_per_second: rate as i128,
                    deposited_amount: deposited as i128,
                    withdrawn_amount: withdrawn as i128,
                    start_time: spec_u64_from_le_bytes(b.subrange(72, 80)),
                    last_update_time: spec_u64_from_le_bytes(b.subrange(80, 88)),
                    is_active: active_byte == 1,
                },
            )
        } else {
            None
        }
    }
}

/// Encoding a key and decoding the bytes yields the key back.
pub proof fn lemma_key_round_trip(k: DataKey)
    ensures
        spec_decode_key(spec_encode_key(k)) == Some(k),
{
    lemma_auto_spec_u64_to_from_le_bytes();
    match k {
        DataKey::NextStreamId => {},
        DataKey::Stream(id) => {
            let e = spec_encode_key(k);
            assert(e.len() == 14);
            assert(e != counter_tag());
            assert(e.subrange(0, 6) =~= stream_tag());
            assert(e.subrange(6, 14) =~= spec_u64_to_le_bytes(id));
        },
    }
}

/// Two equal logical keys are stored under byte-identical keys, and two
/// distinct logical keys never collide: the encoding is deterministic and
/// injective.
pub proof fn lemma_key_encoding_injective(k1: DataKey, k2: DataKey)
    ensures
        k1 == k2 ==> spec_encode_key(k1) == spec_encode_key(k2),
        spec_encode_key(k1) == spec_encode_key(k2) ==> k1 == k2,
{
    lemma_key_round_trip(k1);
    lemma_key_round_trip(k2);
}

/// Encoding a record and decoding the bytes yields the record back.
pub proof fn lemma_stream_round_trip(s: Stream)
    requires
        storable_stream(s),
    ensures
        spec_decode_stream(spec_encode_stream(s)) == Some(s),
{
    lemma_auto_spec_u64_to_from_le_bytes();
    lemma_auto_spec_u128_to_from_le_bytes();
    let e = spec_encode_stream(s);
    assert(e.len() == 89);
    assert(e.subrange(0, 8) =~= spec_u64_to_le_bytes(s.sender));
    assert(e.subrange(8, 16) =~= spec_u64_to_le_bytes(s.recipient));
    assert(e.subrange(16, 24) =~= spec_u64_to_le_bytes(s.token_address));
    assert(e.subrange(24, 40) =~= spec_u128_to_le_bytes(s.rate_per_second as u128));
    assert(e.subrange(40, 56) =~= spec_u128_to_le_bytes(s.deposited_amount as u128));
    assert(e.subrange(56, 72) =~= spec_u128_to_le_bytes(s.withdrawn_amount as u128));
    assert(e.subrange(72, 80) =~= spec_u64_to_le_bytes(s.start_time));
    assert(e.subrange(80, 88) =~= spec_u64_to_le_bytes(s.last_update_time));
    assert(e[88] == if s.is_active {
        1u8
    } else {
        0u8
    });
}

/// Builds the stored bytes of a key.
pub fn encode_key(k: &DataKey) -> (r: Vec<u8>)
    ensures
        r@ == spec_encode_key(*k),
{
    match k {
        DataKey::NextStreamId => {
            let mut out: Vec<u8> = Vec::new();
            out.push(78u8);
            out.push(101u8);
            out.push(120u8);
            out.push(116u8);
            out.push(83u8);
            out.push(116u8);
            out.push(114u8);
            out.push(101u8);
            out.push(97u8);
            out.push(109u8);
            out.push(73u8);
            out.push(100u8);
            proof {
                assert(out@ =~= counter_tag());
            }
            out
        },
        DataKey::Stream(id) => {
            let mut out: Vec<u8> = Vec::new();
            out.push(83u8);
            out.push(116u8);
            out.push(114u8);
            out.push(101u8);
            out.push(97u8);
            out.push(109u8);
            let mut id_bytes = u64_to_le_bytes(*id);
            out.append(&mut id_bytes);
            proof {
                assert(out@ =~= spec_encode_key(*k));
            }
            out
        },
    }
}

/// Parses stored bytes back into a key; `None` for bytes no key encodes to.
pub fn decode_key(bytes: &[u8]) -> (r: Option<DataKey>)
    ensures
        r == spec_decode_key(bytes@),
{
    if bytes.len() == 12 {
        if bytes[0] == 78u8 && bytes[1] == 101u8 && bytes[2] == 120u8 && bytes[3] == 116u8 && bytes[4]
            == 83u8 && bytes[5] == 116u8 && bytes[6] == 114u8 && bytes[7] == 101u8 && bytes[8] == 97u8
            && bytes[9] == 109u8 && bytes[10] == 73u8 && bytes[11] == 100u8 {
            proof {
                assert(bytes@ =~= counter_tag());
            }
            Some(DataKey::NextStreamId)
        } else {
            proof {
                assert(bytes@ != counter_tag());
            }
            None
        }
    } else if bytes.len() == 14 {
        if bytes[0] == 83u8 && bytes[1] == 116u8 && bytes[2] == 114u8 && bytes[3] == 101u8 && bytes[4]
            == 97u8 && bytes[5] == 109u8 {
            proof {
                assert(bytes@.subrange(0, 6) =~= stream_tag());
            }
            let id = u64_from_le_bytes(&bytes[6..14]);
            Some(DataKey::Stream(id))
        } else {
            proof {
                assert(bytes@.subrange(0, 6) != stream_tag());
            }
            None
        }
    } else {
        None
    }
}

/// Builds the stored bytes of a record.
pub fn encode_stream(s: &Stream) -> (r: Vec<u8>)
    requires
        storable_stream(*s),
    ensures
        r@ == spec_encode_stream(*s),
{
    let mut out = u64_to_le_bytes(s.sender);
    let mut part = u64_to_le_bytes(s.recipient);
    out.append(&mut part);
    let mut part = u64_to_le_bytes(s.token_address);
    out.append(&mut part);
    let mut part = u128_to_le_bytes(s.rate_per_second as u128);
    out.append(&mut part);
    let mut part = u128_to_le_bytes(s.deposited_amount as u128);
    out.append(&mut part);
    let mut part = u128_to_le_bytes(s.withdrawn_amount as u128);
    out.append(&mut part);
    let mut part = u64_to_le_bytes(s.start_time);
    out.append(&mut part);
    let mut part = u64_to_le_bytes(s.last_update_time);
    out.append(&mut part);
    out.push(
        if s.is_active {
            1u8
        } else {
            0u8
        },
    );
    proof {
        assert(out@ =~= spec_encode_stream(*s));
    }
    out
}

/// Parses stored bytes back into a record; `None` for bytes no storable
/// record encodes to.
pub fn decode_stream(bytes: &[u8]) -> (r: Option<Stream>)
    ensures
        r == spec_decode_stream(bytes@),
{
    if bytes.len() != 89 {
        return None;
    }
    let rate_raw = u128_from_le_bytes(&bytes[24..40]);
    let deposited_raw = u128_from_le_bytes(&bytes[40..56]);
    let withdrawn_raw = u128_from_le_bytes(&bytes[56..72]);
    let active_byte = bytes[88];
    if rate_raw > i128::MAX as u128 || deposited_raw > i128::MAX as u128 || withdrawn_raw
        > i128::MAX as u128 || active_byte > 1 {
        return None;
    }
    Some(
        Stream {
            sender: u64_from_le_bytes(&bytes[0..8]),
            recipient: u64_from_le_bytes(&bytes[8..16]),
            token_address: u64_from_le_bytes(&bytes[16..24]),
            rate_per_second: rate_raw as i128,
            deposited_amount: deposited_raw as i128,
            withdrawn_amount: withdrawn_raw as i128,
            start_time: u64_from_le_bytes(&bytes[72..80]),
            last_update_time: u64_from_le_bytes(&bytes[80..88]),
            is_active: active_byte == 1,
        },
    )
}

} // verus!
