use crate::errors::WireError;
use vstd::bytes::lemma_auto_spec_u16_to_from_le_bytes;
use vstd::bytes::lemma_auto_spec_u32_to_from_le_bytes;
use vstd::bytes::spec_u16_from_le_bytes;
use vstd::bytes::spec_u16_to_le_bytes;
use vstd::bytes::spec_u32_from_le_bytes;
use vstd::bytes::spec_u32_to_le_bytes;
use vstd::prelude::*;

verus! {

// ---------------------------------------------------------------------------
// Message registry: a closed, compile-time table binding each wire record
// kind to its numeric message-type tag and, where the record has one, its
// fixed payload size. Stamping outgoing envelopes and resolving incoming
// ones both go through this table; a received tag that is not in it is a
// protocol mismatch.
// ---------------------------------------------------------------------------
/// Size of an envelope header: a 16-bit tag then a 32-bit payload length,
/// both little-endian.
pub const ENVELOPE_HEADER_SIZE: usize = 6;

/// Every wire record kind this core can send or receive.
#[derive(Clone, Copy, PartialEq, Eq, Structural, Debug, Hash)]
pub enum MessageType {
    BroadcastTransaction,
    RequestCurrentTickInfo,
    RespondCurrentTickInfo,
    RequestTickTransactions,
    RequestEntity,
    RespondEntity,
    EndResponse,
    RequestIssuedAsset,
    RespondIssuedAsset,
    RequestOwnedAsset,
    RespondOwnedAsset,
    RequestPossessedAsset,
    RespondPossessedAsset,
    RequestContractFunction,
    RespondContractFunction,
    RequestSystemInfo,
    RespondSystemInfo,
    RequestComputors,
    RespondComputors,
}

/// The tag stamped on envelopes carrying the given record kind.
pub open spec fn spec_tag_of(k: MessageType) -> u16 {
    match k {
        MessageType::BroadcastTransaction => 24,
        MessageType::RequestCurrentTickInfo => 27,
        MessageType::RespondCurrentTickInfo => 28,
        MessageType::RequestTickTransactions => 29,
        MessageType::RequestEntity => 31,
        MessageType::RespondEntity => 32,
        MessageType::EndResponse => 35,
        MessageType::RequestIssuedAsset => 36,
        MessageType::RespondIssuedAsset => 37,
        MessageType::RequestOwnedAsset => 38,
        MessageType::RespondOwnedAsset => 39,
        MessageType::RequestPossessedAsset => 40,
        MessageType::RespondPossessedAsset => 41,
        MessageType::RequestContractFunction => 42,
        MessageType::RespondContractFunction => 43,
        MessageType::RequestSystemInfo => 46,
        MessageType::RespondSystemInfo => 47,
        MessageType::RequestComputors => 11,
        MessageType::RespondComputors => 12,
    }
}

/// The record kind a received tag names, or nothing for a tag outside the
/// table.
pub open spec fn spec_kind_of_tag(t: u16) -> Option<MessageType> {
    if t == 24 {
        Some(MessageType::BroadcastTransaction)
    } else if t == 27 {
        Some(MessageType::RequestCurrentTickInfo)
    } else if t == 28 {
        Some(MessageType::RespondCurrentTickInfo)
    } else if t == 29 {
        Some(MessageType::RequestTickTransactions)
    } else if t == 31 {
        Some(MessageType::RequestEntity)
    } else if t == 32 {
        Some(MessageType::RespondEntity)
    } else if t == 35 {
        Some(MessageType::EndResponse)
    } else if t == 36 {
        Some(MessageType::RequestIssuedAsset)
    } else if t == 37 {
        Some(MessageType::RespondIssuedAsset)
    } else if t == 38 {
        Some(MessageType::RequestOwnedAsset)
    } else if t == 39 {
        Some(MessageType::RespondOwnedAsset)
    } else if t == 40 {
        Some(MessageType::RequestPossessedAsset)
    } else if t == 41 {
        Some(MessageType::RespondPossessedAsset)
    } else if t == 42 {
        Some(MessageType::RequestContractFunction)
    } else if t == 43 {
        Some(MessageType::RespondContractFunction)
    } else if t == 46 {
        Some(MessageType::RequestSystemInfo)
    } else if t == 47 {
        Some(MessageType::RespondSystemInfo)
    } else if t == 11 {
        Some(MessageType::RequestComputors)
    } else if t == 12 {
        Some(MessageType::RespondComputors)
    } else {
        None
    }
}

/// The fixed payload size of a record kind, or `None` where the payload is
/// variable-sized.
pub open spec fn spec_expected_payload_size(k: MessageType) -> Option<int> {
    match k {
        MessageType::BroadcastTransaction => None,
        MessageType::RequestCurrentTickInfo => Some(0),
        MessageType::RespondCurrentTickInfo => Some(16),
        MessageType::RequestTickTransactions => Some(8),
        MessageType::RequestEntity => Some(32),
        MessageType::RespondEntity => Some(72),
        MessageType::EndResponse => Some(0),
        MessageType::RequestIssuedAsset => Some(32),
        MessageType::RespondIssuedAsset => Some(52),
        MessageType::RequestOwnedAsset => Some(32),
        MessageType::RespondOwnedAsset => Some(100),
        MessageType::RequestPossessedAsset => Some(32),
        MessageType::RespondPossessedAsset => Some(148),
        MessageType::RequestContractFunction => None,
        MessageType::RespondContractFunction => None,
        MessageType::RequestSystemInfo => Some(0),
        MessageType::RespondSystemInfo => Some(20),
        MessageType::RequestComputors => Some(0),
        MessageType::RespondComputors => Some(21698),
    }
}

/// A payload length agrees with the record kind: it equals the kind's fixed
/// size, or the kind is variable-sized.
pub open spec fn payload_size_ok(k: MessageType, n: int) -> bool {
    match spec_expected_payload_size(k) {
        Some(s) => s == n,
        None => true,
    }
}

/// The tag stamped on envelopes carrying the given record kind.
pub fn tag_of(k: MessageType) -> (r: u16)
    ensures
        r == spec_tag_of(k),
{
    match k {
        MessageType::BroadcastTransaction => 24,
        MessageType::RequestCurrentTickInfo => 27,
        MessageType::RespondCurrentTickInfo => 28,
        MessageType::RequestTickTransactions => 29,
        MessageType::RequestEntity => 31,
        MessageType::RespondEntity => 32,
        MessageType::EndResponse => 35,
        MessageType::RequestIssuedAsset => 36,
        MessageType::RespondIssuedAsset => 37,
        MessageType::RequestOwnedAsset => 38,
        MessageType::RespondOwnedAsset => 39,
        MessageType::RequestPossessedAsset => 40,
        MessageType::RespondPossessedAsset => 41,
        MessageType::RequestContractFunction => 42,
        MessageType::RespondContractFunction => 43,
        MessageType::RequestSystemInfo => 46,
        MessageType::RespondSystemInfo => 47,
        MessageType::RequestComputors => 11,
        MessageType::RespondComputors => 12,
    }
}

/// The record kind a received tag names, or nothing for a tag outside the
/// table.
pub fn kind_of_tag(t: u16) -> (r: Option<MessageType>)
    ensures
        r == spec_kind_of_tag(t),
{
    if t == 24 {
        Some(MessageType::BroadcastTransaction)
    } else if t == 27 {
        Some(MessageType::RequestCurrentTickInfo)
    } else if t == 28 {
        Some(MessageType::RespondCurrentTickInfo)
    } else if t == 29 {
        Some(MessageType::RequestTickTransactions)
    } else if t == 31 {
        Some(MessageType::RequestEntity)
    } else if t == 32 {
        Some(MessageType::RespondEntity)
    } else if t == 35 {
        Some(MessageType::EndResponse)
    } else if t == 36 {
        Some(MessageType::RequestIssuedAsset)
    } else if t == 37 {
        Some(MessageType::RespondIssuedAsset)
    } else if t == 38 {
        Some(MessageType::RequestOwnedAsset)
    } else if t == 39 {
        Some(MessageType::RespondOwnedAsset)
    } else if t == 40 {
        Some(MessageType::RequestPossessedAsset)
    } else if t == 41 {
        Some(MessageType::RespondPossessedAsset)
    } else if t == 42 {
        Some(MessageType::RequestContractFunction)
    } else if t == 43 {
        Some(MessageType::RespondContractFunction)
    } else if t == 46 {
        Some(MessageType::RequestSystemInfo)
    } else if t == 47 {
        Some(MessageType::RespondSystemInfo)
    } else if t == 11 {
        Some(MessageType::RequestComputors)
    } else if t == 12 {
        Some(MessageType::RespondComputors)
    } else {
        None
    }
}

/// The registry is coherent: resolving the tag stamped for a kind gives
/// that kind back, for every kind in the closed table.
pub proof fn lemma_registry_round_trip(k: MessageType)
    ensures
        spec_kind_of_tag(spec_tag_of(k)) == Some(k),
{
}

/// The exact wire bytes of one envelope: tag, payload length, payload.
pub open spec fn spec_envelope(k: MessageType, payload: Seq<u8>) -> Seq<u8> {
    spec_u16_to_le_bytes(spec_tag_of(k)) + spec_u32_to_le_bytes(payload.len() as u32) + payload
}

/// What resolving a received buffer as one envelope yields: the record kind
/// and the payload, or nothing when the header is short, the tag is outside
/// the table, the declared length disagrees with the buffer, or the payload
/// length disagrees with the resolved kind's fixed size.
pub open spec fn spec_decode_envelope(b: Seq<u8>) -> Option<(MessageType, Seq<u8>)> {
    if b.len() < ENVELOPE_HEADER_SIZE {
        None
    } else {
        match spec_kind_of_tag(spec_u16_from_le_bytes(b.subrange(0, 2))) {
            None => None,
            Some(k) => {
                if spec_u32_from_le_bytes(b.subrange(2, 6)) != b.len() - 6 {
                    None
                } else if payload_size_ok(k, b.len() - 6) {
                    Some((k, b.subrange(6, b.len() as int)))
                } else {
                    None
                }
            },
        }
    }
}

/// Frames one outgoing record: stamps the kind's tag and the payload
/// length, then appends the payload.
pub fn encode_envelope(k: MessageType, payload: &Vec<u8>) -> (r: Vec<u8>)
    requires
        payload@.len() <= u32::MAX,
    ensures
        r@ == spec_envelope(k, payload@),
{
    let mut v: Vec<u8> = Vec::new();
    crate::packed::U16::from_native(tag_of(k)).write_to(&mut v);
    crate::packed::U32::from_native(payload.len() as u32).write_to(&mut v);
    let mut i: usize = 0;
    let n = payload.len();
    let ghost head = spec_u16_to_le_bytes(spec_tag_of(k)) + spec_u32_to_le_bytes(
        payload@.len() as u32,
    );
    while i < n
        invariant
            i <= n,
            n == payload@.len(),
            v@ == head + payload@.take(i as int),
        decreases n - i,
    {
        v.push(payload[i]);
        proof {
            assert(head + payload@.take((i + 1) as int) =~= (head + payload@.take(
                i as int,
            )).push(payload@[i as int]));
        }
        i += 1;
    }
    proof {
        assert(payload@.take(n as int) =~= payload@);
        assert(v@ =~= spec_envelope(k, payload@));
    }
    v
}

/// Resolves one received buffer as an envelope through the registry. A tag
/// outside the table, a declared length that disagrees with the buffer, or
/// a payload length that disagrees with the resolved kind's fixed size is a
/// `ProtocolMismatch`; the decoder fails cleanly, it never reads past the
/// buffer.
pub fn decode_envelope(b: &Vec<u8>) -> (r: Result<(MessageType, Vec<u8>), WireError>)
    ensures
        spec_decode_envelope(b@) matches Some(kp) ==> (r matches Ok(x) && x.0 == kp.0 && x.1@
            == kp.1),
        spec_decode_envelope(b@) is None ==> r == Err::<(MessageType, Vec<u8>), WireError>(
            WireError::ProtocolMismatch,
        ),
{
    let n = b.len();
    if n < ENVELOPE_HEADER_SIZE {
        return Err(WireError::ProtocolMismatch);
    }
    let tag = crate::packed::U16::read_from(b, 0).to_native();
    let kind = match kind_of_tag(tag) {
        Some(k) => k,
        None => {
            return Err(WireError::ProtocolMismatch);
        },
    };
    let declared = crate::packed::U32::read_from(b, 2).to_native();
    if declared as usize != n - ENVELOPE_HEADER_SIZE {
        return Err(WireError::ProtocolMismatch);
    }
    let ok = match expected_payload_size(kind) {
        Some(s) => s == n - ENVELOPE_HEADER_SIZE,
        None => true,
    };
    if !ok {
        return Err(WireError::ProtocolMismatch);
    }
    let mut payload: Vec<u8> = Vec::new();
    let mut i: usize = 0;
    while i < n - ENVELOPE_HEADER_SIZE
        invariant
            i <= n - ENVELOPE_HEADER_SIZE,
            n == b@.len(),
            n >= ENVELOPE_HEADER_SIZE,
            payload@ == b@.subrange(6, 6 + i as int),
        decreases n - ENVELOPE_HEADER_SIZE - i,
    {
        payload.push(b[ENVELOPE_HEADER_SIZE + i]);
        proof {
            assert(b@.subrange(6, 6 + (i + 1) as int) =~= b@.subrange(6, 6 + i as int).push(
                b@[6 + i as int],
            ));
        }
        i += 1;
    }
    proof {
        assert(b@.subrange(6, b@.len() as int) =~= payload@);
    }
    Ok((kind, payload))
}

/// The fixed payload size of a record kind, or `None` where the payload is
/// variable-sized.
pub fn expected_payload_size(k: MessageType) -> (r: Option<usize>)
    ensures
        match r {
            Some(s) => spec_expected_payload_size(k) == Some(s as int),
            None => spec_expected_payload_size(k) is None,
        },
{
    match k {
        MessageType::BroadcastTransaction => None,
        MessageType::RequestCurrentTickInfo => Some(0),
        MessageType::RespondCurrentTickInfo => Some(16),
        MessageType::RequestTickTransactions => Some(8),
        MessageType::RequestEntity => Some(32),
        MessageType::RespondEntity => Some(72),
        MessageType::EndResponse => Some(0),
        MessageType::RequestIssuedAsset => Some(32),
        MessageType::RespondIssuedAsset => Some(52),
        MessageType::RequestOwnedAsset => Some(32),
        MessageType::RespondOwnedAsset => Some(100),
        MessageType::RequestPossessedAsset => Some(32),
        MessageType::RespondPossessedAsset => Some(148),
        MessageType::RequestContractFunction => None,
        MessageType::RespondContractFunction => None,
        MessageType::RequestSystemInfo => Some(0),
        MessageType::RespondSystemInfo => Some(20),
        MessageType::RequestComputors => Some(0),
        MessageType::RespondComputors => Some(21698),
    }
}

/// Framing round trip: an envelope built for a kind and a payload whose
/// length suits that kind resolves back to exactly that kind and payload.
pub proof fn lemma_envelope_round_trip(k: MessageType, payload: Seq<u8>)
    requires
        payload.len() <= u32::MAX,
        payload_size_ok(k, payload.len() as int),
    ensures
        spec_decode_envelope(spec_envelope(k, payload)) == Some((k, payload)),
{
    lemma_auto_spec_u16_to_from_le_bytes();
    lemma_auto_spec_u32_to_from_le_bytes();
    let b = spec_envelope(k, payload);
    assert(b.subrange(0, 2) =~= spec_u16_to_le_bytes(spec_tag_of(k)));
    assert(b.subrange(2, 6) =~= spec_u32_to_le_bytes(payload.len() as u32));
    assert(b.subrange(6, b.len() as int) =~= payload);
}

} // verus!
