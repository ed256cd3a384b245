use crate::errors::WireError;
use crate::identity::QubicId;
use crate::registry::spec_decode_envelope;
use crate::registry::spec_envelope;
use crate::registry::MessageType;
use crate::transaction::TransactionWithData;
use vstd::prelude::*;

verus! {

broadcast use vstd::array::group_array_axioms, crate::packed::group_packed_len_axioms, crate::text::lemma_asset_name_byte_len, crate::identity::lemma_qubic_id_byte_len;

// ---------------------------------------------------------------------------
// Network client core.
//
// The protocol is strictly request-then-response on one connection, with no
// in-band request identifiers: a response is matched to a request purely by
// being the next bytes on the wire. The client therefore runs each
// connection as a two-state machine, Idle -> AwaitingResponse -> Idle, and
// a second request must not be issued while one is outstanding. Concurrent
// callers sharing one client are serialized by the surrounding I/O layer
// through a single-owner queue, so at most one exchange is outstanding per
// connection at a time; this module decides every transition and what each
// received buffer means. A timeout, an I/O failure, a protocol mismatch or
// an abandoned exchange leaves the read position unknown, so it moves the
// connection to `Dead`; the surrounding layer reestablishes it lazily
// before the next operation rather than retrying the failed request.
// ---------------------------------------------------------------------------
/// The phase of one connection: free for a request, holding one outstanding
/// request and the response kind it awaits, or invalidated and awaiting a
/// reconnect.
#[derive(Clone, Copy, PartialEq, Eq, Structural, Debug)]
pub enum ConnPhase {
    Idle,
    Awaiting(MessageType),
    Dead,
}

/// The per-connection state machine.
#[derive(Clone, Copy, PartialEq, Eq, Structural, Debug)]
pub struct ClientState {
    pub phase: ConnPhase,
}

/// The response kind one exchange of the given request kind awaits, or
/// `None` for a fire-and-forget broadcast.
pub open spec fn spec_response_kind(k: MessageType) -> Option<MessageType> {
    match k {
        MessageType::BroadcastTransaction => None,
        MessageType::RequestCurrentTickInfo => Some(MessageType::RespondCurrentTickInfo),
        MessageType::RequestTickTransactions => Some(MessageType::BroadcastTransaction),
        MessageType::RequestEntity => Some(MessageType::RespondEntity),
        MessageType::RequestIssuedAsset => Some(MessageType::RespondIssuedAsset),
        MessageType::RequestOwnedAsset => Some(MessageType::RespondOwnedAsset),
        MessageType::RequestPossessedAsset => Some(MessageType::RespondPossessedAsset),
        MessageType::RequestContractFunction => Some(MessageType::RespondContractFunction),
        MessageType::RequestSystemInfo => Some(MessageType::RespondSystemInfo),
        MessageType::RequestComputors => Some(MessageType::RespondComputors),
        _ => None,
    }
}

/// Whether a response of this kind arrives as a stream of envelopes closed
/// by an `EndResponse` envelope, rather than as a single envelope.
pub open spec fn is_stream_response(q: MessageType) -> bool {
    q == MessageType::BroadcastTransaction
}

/// The phase a connection enters when a request of kind `k` is issued from
/// `Idle`.
pub open spec fn spec_phase_after_issue(k: MessageType) -> ConnPhase {
    match spec_response_kind(k) {
        Some(q) => ConnPhase::Awaiting(q),
        None => ConnPhase::Idle,
    }
}

/// The phase a connection awaiting `q` enters on receiving the buffer `b`:
/// a well-framed envelope of the awaited kind completes the exchange (or
/// continues it, for a stream); the end marker closes a stream; anything
/// else invalidates the connection.
pub open spec fn spec_phase_after_receive(q: MessageType, b: Seq<u8>) -> ConnPhase {
    match spec_decode_envelope(b) {
        None => ConnPhase::Dead,
        Some(kp) => if kp.0 == q {
            if is_stream_response(q) {
                ConnPhase::Awaiting(q)
            } else {
                ConnPhase::Idle
            }
        } else if kp.0 == MessageType::EndResponse && is_stream_response(q) {
            ConnPhase::Idle
        } else {
            ConnPhase::Dead
        },
    }
}

/// The record a connection awaiting `q` hands its caller on receiving `b`:
/// the payload of a well-framed envelope of exactly the awaited kind, and
/// nothing otherwise.
pub open spec fn spec_received_record(q: MessageType, b: Seq<u8>) -> Option<(
    MessageType,
    Seq<u8>,
)> {
    match spec_decode_envelope(b) {
        None => None,
        Some(kp) => if kp.0 == q {
            Some(kp)
        } else {
            None
        },
    }
}

/// Whether receiving `b` while awaiting `q` is the end marker of a stream.
pub open spec fn spec_received_stream_end(q: MessageType, b: Seq<u8>) -> bool {
    &&& is_stream_response(q)
    &&& spec_decode_envelope(b) matches Some(kp) && kp.0 == MessageType::EndResponse
}

/// What one received envelope means to the caller: one record of the
/// awaited kind, or the end of a streamed response.
#[derive(Clone, PartialEq, Eq, Debug)]
pub enum Received {
    Record(MessageType, Vec<u8>),
    StreamEnd,
}

impl ClientState {
    /// A fresh client over a newly established connection.
    pub fn new() -> (r: ClientState)
        ensures
            r.phase == ConnPhase::Idle,
    {
        ClientState { phase: ConnPhase::Idle }
    }

    /// Issues one request: frames the payload under the kind's tag and
    /// records which response kind the connection now awaits. Only an idle
    /// connection may issue; an outstanding exchange or a dead connection
    /// refuses with `ConnectionError` and the caller must first finish the
    /// exchange or reconnect.
    pub fn issue(&mut self, kind: MessageType, payload: &Vec<u8>) -> (r: Result<
        Vec<u8>,
        WireError,
    >)
        requires
            payload@.len() <= u32::MAX,
        ensures
            old(self).phase == ConnPhase::Idle ==> (r matches Ok(env) && env@ == spec_envelope(
                kind,
                payload@,
            ) && final(self).phase == spec_phase_after_issue(kind)),
            old(self).phase != ConnPhase::Idle ==> r == Err::<Vec<u8>, WireError>(
                WireError::ConnectionError,
            ) && *final(self) == *old(self),
    {
        match self.phase {
            ConnPhase::Idle => {
                let env = crate::registry::encode_envelope(kind, payload);
                self.phase = match response_kind(kind) {
                    Some(q) => ConnPhase::Awaiting(q),
                    None => ConnPhase::Idle,
                };
                Ok(env)
            },
            _ => Err(WireError::ConnectionError),
        }
    }

    /// Resolves one received buffer against the outstanding exchange. An
    /// envelope of the awaited kind is handed to the caller (and, for a
    /// single-envelope response, completes the exchange); the end marker
    /// closes a streamed response; an unknown tag, a length disagreement
    /// or an unexpected kind is a `ProtocolMismatch` that invalidates the
    /// connection. Receiving anything while no exchange is outstanding is
    /// a `ConnectionError`.
    pub fn receive(&mut self, bytes: &Vec<u8>) -> (r: Result<Received, WireError>)
        ensures
            match old(self).phase {
                ConnPhase::Awaiting(q) => {
                    &&& final(self).phase == spec_phase_after_receive(q, bytes@)
                    &&& (spec_received_record(q, bytes@) matches Some(kp) ==> (r matches Ok(
                        Received::Record(k, p),
                    ) && k == kp.0 && p@ == kp.1))
                    &&& (spec_received_stream_end(q, bytes@) && spec_received_record(q, bytes@)
                        is None ==> (r matches Ok(x) && x is StreamEnd))
                    &&& (spec_received_record(q, bytes@) is None && !spec_received_stream_end(
                        q,
                        bytes@,
                    ) ==> r == Err::<Received, WireError>(WireError::ProtocolMismatch))
                },
                _ => r == Err::<Received, WireError>(WireError::ConnectionError) && *final(self)
                    == *old(self),
            },
    {
        let q = match self.phase {
            ConnPhase::Awaiting(q) => q,
            _ => {
                return Err(WireError::ConnectionError);
            },
        };
        let (kind, payload) = match crate::registry::decode_envelope(bytes) {
            Ok(kp) => kp,
            Err(_) => {
                self.phase = ConnPhase::Dead;
                return Err(WireError::ProtocolMismatch);
            },
        };
        if kind_eq(kind, q) {
            if !stream_response(q) {
                self.phase = ConnPhase::Idle;
            }
            Ok(Received::Record(kind, payload))
        } else if kind_eq(kind, MessageType::EndResponse) && stream_response(q) {
            self.phase = ConnPhase::Idle;
            Ok(Received::StreamEnd)
        } else {
            self.phase = ConnPhase::Dead;
            Err(WireError::ProtocolMismatch)
        }
    }

    /// No response arrived within the bounded window: the read position is
    /// unknown, so the connection is invalidated and the caller is handed
    /// a `Timeout`.
    pub fn on_timeout(&mut self) -> (e: WireError)
        ensures
            final(self).phase == ConnPhase::Dead,
            e == WireError::Timeout,
    {
        self.phase = ConnPhase::Dead;
        WireError::Timeout
    }

    /// The stream failed while in use: the connection is invalidated and
    /// the caller is handed a `ConnectionError`.
    pub fn on_connection_error(&mut self) -> (e: WireError)
        ensures
            final(self).phase == ConnPhase::Dead,
            e == WireError::ConnectionError,
    {
        self.phase = ConnPhase::Dead;
        WireError::ConnectionError
    }

    /// A caller abandoned an exchange mid-flight: rather than attempt
    /// partial-read recovery, the connection is invalidated.
    pub fn abandon(&mut self)
        ensures
            final(self).phase == ConnPhase::Dead,
    {
        self.phase = ConnPhase::Dead;
    }

    /// Whether the connection must be reestablished before the next
    /// operation.
    pub fn needs_reconnect(&self) -> (r: bool)
        ensures
            r == (self.phase == ConnPhase::Dead),
    {
        match self.phase {
            ConnPhase::Dead => true,
            _ => false,
        }
    }

    /// The surrounding layer reestablished the stream: the connection is
    /// idle again.
    pub fn reconnected(&mut self)
        ensures
            final(self).phase == ConnPhase::Idle,
    {
        self.phase = ConnPhase::Idle;
    }
}

/// The response kind one exchange of the given request kind awaits, or
/// `None` for a fire-and-forget broadcast.
pub fn response_kind(k: MessageType) -> (r: Option<MessageType>)
    ensures
        r == spec_response_kind(k),
{
    match k {
        MessageType::BroadcastTransaction => None,
        MessageType::RequestCurrentTickInfo => Some(MessageType::RespondCurrentTickInfo),
        MessageType::RequestTickTransactions => Some(MessageType::BroadcastTransaction),
        MessageType::RequestEntity => Some(MessageType::RespondEntity),
        MessageType::RequestIssuedAsset => Some(MessageType::RespondIssuedAsset),
        MessageType::RequestOwnedAsset => Some(MessageType::RespondOwnedAsset),
        MessageType::RequestPossessedAsset => Some(MessageType::RespondPossessedAsset),
        MessageType::RequestContractFunction => Some(MessageType::RespondContractFunction),
        MessageType::RequestSystemInfo => Some(MessageType::RespondSystemInfo),
        MessageType::RequestComputors => Some(MessageType::RespondComputors),
        _ => None,
    }
}

/// Whether a response of this kind arrives as a stream of envelopes closed
/// by an `EndResponse` envelope.
pub fn stream_response(q: MessageType) -> (r: bool)
    ensures
        r == is_stream_response(q),
{
    match q {
        MessageType::BroadcastTransaction => true,
        _ => false,
    }
}

/// Structural equality of two record kinds.
pub fn kind_eq(a: MessageType, b: MessageType) -> (r: bool)
    ensures
        r == (a == b),
{
    a == b
}

/// Responses arrive in issue order with no cross-talk. Two requests run in
/// sequence on one idle connection, each a single-envelope exchange and
/// each answered by a well-framed envelope of its own awaited kind: the
/// machine walks Idle -> Awaiting -> Idle twice, the first caller is handed
/// exactly the first reply's payload under the first awaited kind, and the
/// second caller the second reply's payload under the second awaited kind.
pub proof fn lemma_sequential_exchange_order(
    k1: MessageType,
    k2: MessageType,
    q1: MessageType,
    q2: MessageType,
    b1: Seq<u8>,
    b2: Seq<u8>,
)
    requires
        spec_response_kind(k1) == Some(q1),
        spec_response_kind(k2) == Some(q2),
        !is_stream_response(q1),
        !is_stream_response(q2),
        spec_decode_envelope(b1) matches Some(kp) && kp.0 == q1,
        spec_decode_envelope(b2) matches Some(kp) && kp.0 == q2,
    ensures
        spec_phase_after_issue(k1) == ConnPhase::Awaiting(q1),
        spec_received_record(q1, b1) == Some((q1, spec_decode_envelope(b1)->Some_0.1)),
        spec_phase_after_receive(q1, b1) == ConnPhase::Idle,
        spec_phase_after_issue(k2) == ConnPhase::Awaiting(q2),
        spec_received_record(q2, b2) == Some((q2, spec_decode_envelope(b2)->Some_0.1)),
        spec_phase_after_receive(q2, b2) == ConnPhase::Idle,
{
}

// ---------------------------------------------------------------------------
// Typed operations: one per logical request kind. Each shapes the request
// payload and issues it through the state machine; the surrounding I/O
// layer writes the returned envelope and feeds the reply back through
// `receive`.
// ---------------------------------------------------------------------------
impl ClientState {
    /// Requests the current tick and epoch status.
    pub fn begin_get_current_tick_info(&mut self) -> (r: Result<Vec<u8>, WireError>)
        ensures
            old(self).phase == ConnPhase::Idle ==> (r matches Ok(env) && env@ == spec_envelope(
                MessageType::RequestCurrentTickInfo,
                Seq::empty(),
            ) && final(self).phase == ConnPhase::Awaiting(MessageType::RespondCurrentTickInfo)),
            old(self).phase != ConnPhase::Idle ==> r == Err::<Vec<u8>, WireError>(
                WireError::ConnectionError,
            ) && *final(self) == *old(self),
    {
        let payload: Vec<u8> = Vec::new();
        self.issue(MessageType::RequestCurrentTickInfo, &payload)
    }

    /// Requests the balance/entity record of one identity.
    pub fn begin_request_entity(&mut self, id: &QubicId) -> (r: Result<Vec<u8>, WireError>)
        ensures
            old(self).phase == ConnPhase::Idle ==> (r matches Ok(env) && env@ == spec_envelope(
                MessageType::RequestEntity,
                id@,
            ) && final(self).phase == ConnPhase::Awaiting(MessageType::RespondEntity)),
            old(self).phase != ConnPhase::Idle ==> r == Err::<Vec<u8>, WireError>(
                WireError::ConnectionError,
            ) && *final(self) == *old(self),
    {
        let mut payload: Vec<u8> = Vec::new();
        id.write_to(&mut payload);
        self.issue(MessageType::RequestEntity, &payload)
    }

    /// Broadcasts one signed transaction; the node sends no reply, so the
    /// connection stays idle.
    pub fn begin_broadcast_transaction(&mut self, tx: &TransactionWithData) -> (r: Result<
        Vec<u8>,
        WireError,
    >)
        requires
            tx.raw_transaction.payload@.len() <= u16::MAX,
        ensures
            old(self).phase == ConnPhase::Idle ==> (r matches Ok(env) && env@ == spec_envelope(
                MessageType::BroadcastTransaction,
                tx.spec_encode(),
            ) && final(self).phase == ConnPhase::Idle),
            old(self).phase != ConnPhase::Idle ==> r == Err::<Vec<u8>, WireError>(
                WireError::ConnectionError,
            ) && *final(self) == *old(self),
    {
        proof {
            vstd::bytes::lemma_auto_spec_u16_to_from_le_bytes();
            vstd::bytes::lemma_auto_spec_u32_to_from_le_bytes();
            vstd::bytes::lemma_auto_spec_u64_to_from_le_bytes();
        }
        let payload = tx.encode();
        self.issue(MessageType::BroadcastTransaction, &payload)
    }

    /// Requests the active computor list.
    pub fn begin_request_computors(&mut self) -> (r: Result<Vec<u8>, WireError>)
        ensures
            old(self).phase == ConnPhase::Idle ==> (r matches Ok(env) && env@ == spec_envelope(
                MessageType::RequestComputors,
                Seq::empty(),
            ) && final(self).phase == ConnPhase::Awaiting(MessageType::RespondComputors)),
            old(self).phase != ConnPhase::Idle ==> r == Err::<Vec<u8>, WireError>(
                WireError::ConnectionError,
            ) && *final(self) == *old(self),
    {
        let payload: Vec<u8> = Vec::new();
        self.issue(MessageType::RequestComputors, &payload)
    }

    /// Requests every transaction of one tick, filtered by the given flag
    /// bits; the responses stream in as transaction envelopes closed by an
    /// end marker.
    pub fn begin_request_tick_transactions(&mut self, tick: u32, flags: u32) -> (r: Result<
        Vec<u8>,
        WireError,
    >)
        ensures
            old(self).phase == ConnPhase::Idle ==> (r matches Ok(env) && env@ == spec_envelope(
                MessageType::RequestTickTransactions,
                vstd::bytes::spec_u32_to_le_bytes(tick) + vstd::bytes::spec_u32_to_le_bytes(
                    flags,
                ),
            ) && final(self).phase == ConnPhase::Awaiting(MessageType::BroadcastTransaction)),
            old(self).phase != ConnPhase::Idle ==> r == Err::<Vec<u8>, WireError>(
                WireError::ConnectionError,
            ) && *final(self) == *old(self),
    {
        let mut payload: Vec<u8> = Vec::new();
        crate::packed::U32::from_native(tick).write_to(&mut payload);
        crate::packed::U32::from_native(flags).write_to(&mut payload);
        self.issue(MessageType::RequestTickTransactions, &payload)
    }

    /// Invokes a read-only contract function with the given raw input.
    pub fn begin_request_contract_function(
        &mut self,
        contract_index: u32,
        input_type: u16,
        input_size: u16,
        data: &Vec<u8>,
    ) -> (r: Result<Vec<u8>, WireError>)
        requires
            data@.len() == input_size,
        ensures
            old(self).phase == ConnPhase::Idle ==> (r matches Ok(env) && env@ == spec_envelope(
                MessageType::RequestContractFunction,
                vstd::bytes::spec_u32_to_le_bytes(contract_index)
                    + vstd::bytes::spec_u16_to_le_bytes(input_type)
                    + vstd::bytes::spec_u16_to_le_bytes(input_size) + data@,
            ) && final(self).phase == ConnPhase::Awaiting(
                MessageType::RespondContractFunction,
            )),
            old(self).phase != ConnPhase::Idle ==> r == Err::<Vec<u8>, WireError>(
                WireError::ConnectionError,
            ) && *final(self) == *old(self),
    {
        let mut payload: Vec<u8> = Vec::new();
        crate::packed::U32::from_native(contract_index).write_to(&mut payload);
        crate::packed::U16::from_native(input_type).write_to(&mut payload);
        crate::packed::U16::from_native(input_size).write_to(&mut payload);
        let mut i: usize = 0;
        let n = data.len();
        let ghost head = vstd::bytes::spec_u32_to_le_bytes(contract_index)
            + vstd::bytes::spec_u16_to_le_bytes(input_type) + vstd::bytes::spec_u16_to_le_bytes(
            input_size,
        );
        while i < n
            invariant
                i <= n,
                n == data@.len(),
                payload@ == head + data@.take(i as int),
            decreases n - i,
        {
            payload.push(data[i]);
            proof {
                assert(head + data@.take((i + 1) as int) =~= (head + data@.take(i as int)).push(
                    data@[i as int],
                ));
            }
            i += 1;
        }
        proof {
            assert(data@.take(n as int) =~= data@);
        }
        self.issue(MessageType::RequestContractFunction, &payload)
    }

    /// Requests the node's system status record.
    pub fn begin_request_system_info(&mut self) -> (r: Result<Vec<u8>, WireError>)
        ensures
            old(self).phase == ConnPhase::Idle ==> (r matches Ok(env) && env@ == spec_envelope(
                MessageType::RequestSystemInfo,
                Seq::empty(),
            ) && final(self).phase == ConnPhase::Awaiting(MessageType::RespondSystemInfo)),
            old(self).phase != ConnPhase::Idle ==> r == Err::<Vec<u8>, WireError>(
                WireError::ConnectionError,
            ) && *final(self) == *old(self),
    {
        let payload: Vec<u8> = Vec::new();
        self.issue(MessageType::RequestSystemInfo, &payload)
    }

    /// Requests the asset issuance records of one identity.
    pub fn begin_request_issued_assets(&mut self, id: &QubicId) -> (r: Result<Vec<u8>, WireError>)
        ensures
            old(self).phase == ConnPhase::Idle ==> (r matches Ok(env) && env@ == spec_envelope(
                MessageType::RequestIssuedAsset,
                id@,
            ) && final(self).phase == ConnPhase::Awaiting(MessageType::RespondIssuedAsset)),
            old(self).phase != ConnPhase::Idle ==> r == Err::<Vec<u8>, WireError>(
                WireError::ConnectionError,
            ) && *final(self) == *old(self),
    {
        let mut payload: Vec<u8> = Vec::new();
        id.write_to(&mut payload);
        self.issue(MessageType::RequestIssuedAsset, &payload)
    }

    /// Requests the asset ownership records of one identity.
    pub fn begin_request_owned_assets(&mut self, id: &QubicId) -> (r: Result<Vec<u8>, WireError>)
        ensures
            old(self).phase == ConnPhase::Idle ==> (r matches Ok(env) && env@ == spec_envelope(
                MessageType::RequestOwnedAsset,
                id@,
            ) && final(self).phase == ConnPhase::Awaiting(MessageType::RespondOwnedAsset)),
            old(self).phase != ConnPhase::Idle ==> r == Err::<Vec<u8>, WireError>(
                WireError::ConnectionError,
            ) && *final(self) == *old(self),
    {
        let mut payload: Vec<u8> = Vec::new();
        id.write_to(&mut payload);
        self.issue(MessageType::RequestOwnedAsset, &payload)
    }

    /// Requests the asset possession records of one identity.
    pub fn begin_request_possessed_assets(&mut self, id: &QubicId) -> (r: Result<
        Vec<u8>,
        WireError,
    >)
        ensures
            old(self).phase == ConnPhase::Idle ==> (r matches Ok(env) && env@ == spec_envelope(
                MessageType::RequestPossessedAsset,
                id@,
            ) && final(self).phase == ConnPhase::Awaiting(MessageType::RespondPossessedAsset)),
            old(self).phase != ConnPhase::Idle ==> r == Err::<Vec<u8>, WireError>(
                WireError::ConnectionError,
            ) && *final(self) == *old(self),
    {
        let mut payload: Vec<u8> = Vec::new();
        id.write_to(&mut payload);
        self.issue(MessageType::RequestPossessedAsset, &payload)
    }
}

} // verus!
