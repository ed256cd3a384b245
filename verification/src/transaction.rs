use crate::assets::IssueAssetInput;
use crate::assets::TransferAssetInput;
use crate::assets::TransferAssetOwnershipAndPossessionInput;
use crate::assets::ISSUE_ASSET_FEE;
use crate::assets::ISSUE_ASSET_INPUT_SIZE;
use crate::assets::TRANSFER_ASSET_INPUT_SIZE;
use crate::assets::TRANSFER_FEE;
use crate::assets::TRANSFER_OWNERSHIP_INPUT_SIZE;
use crate::errors::WireError;
use crate::identity::QubicId;
use crate::packed::U16;
use crate::packed::U32;
use crate::packed::U64;
use vstd::prelude::*;

verus! {

broadcast use vstd::array::group_array_axioms, crate::packed::group_packed_len_axioms, crate::text::lemma_asset_name_byte_len, crate::identity::lemma_qubic_id_byte_len;

/// Encoded size of a transaction header.
pub const TRANSACTION_HEADER_SIZE: usize = 80;

/// Size of a transaction signature.
pub const SIGNATURE_SIZE: usize = 64;

/// Declared input type of an asset issuance payload.
pub const INPUT_TYPE_ISSUE_ASSET: u16 = 1;

/// Declared input type of an ownership-and-possession transfer payload.
pub const INPUT_TYPE_TRANSFER_OWNERSHIP: u16 = 2;

/// Declared input type of an asset transfer payload.
pub const INPUT_TYPE_TRANSFER_ASSET: u16 = 3;

/// The payload size a known input type requires, or `None` for input types
/// this core does not model.
pub open spec fn expected_input_size(t: u16) -> Option<int> {
    if t == INPUT_TYPE_ISSUE_ASSET {
        Some(ISSUE_ASSET_INPUT_SIZE as int)
    } else if t == INPUT_TYPE_TRANSFER_OWNERSHIP {
        Some(TRANSFER_OWNERSHIP_INPUT_SIZE as int)
    } else if t == INPUT_TYPE_TRANSFER_ASSET {
        Some(TRANSFER_ASSET_INPUT_SIZE as int)
    } else {
        None
    }
}

/// Whether a declared payload length agrees with the declared input type: a
/// known type demands exactly its own size; an unknown type takes any size.
pub open spec fn input_size_consistent(t: u16, n: int) -> bool {
    match expected_input_size(t) {
        Some(s) => s == n,
        None => true,
    }
}

/// The variant payload of a transaction. Input types this core does not
/// model decode to `Unknown`, carrying the declared input type and the raw
/// bytes unchanged, for forward compatibility; that is not an error.
#[derive(Clone, PartialEq, Eq, Hash, Debug)]
pub enum TransactionData {
    TransferAsset(TransferAssetInput),
    IssueAsset(IssueAssetInput),
    TransferAssetOwnershipAndPossession(TransferAssetOwnershipAndPossessionInput),
    Unknown(u16, Vec<u8>),
}

impl TransactionData {
    /// The exact wire bytes of this payload.
    pub open spec fn spec_encode(self) -> Seq<u8> {
        match self {
            TransactionData::TransferAsset(x) => x.spec_encode(),
            TransactionData::IssueAsset(x) => x.spec_encode(),
            TransactionData::TransferAssetOwnershipAndPossession(x) => x.spec_encode(),
            TransactionData::Unknown(_t, v) => v@,
        }
    }

    /// The declared input type this payload belongs to.
    pub open spec fn spec_input_type(self) -> u16 {
        match self {
            TransactionData::TransferAsset(_) => INPUT_TYPE_TRANSFER_ASSET,
            TransactionData::IssueAsset(_) => INPUT_TYPE_ISSUE_ASSET,
            TransactionData::TransferAssetOwnershipAndPossession(
                _,
            ) => INPUT_TYPE_TRANSFER_OWNERSHIP,
            TransactionData::Unknown(t, _) => t,
        }
    }

    /// Interprets `payload` as the variant the declared input type names.
    /// A known input type whose size differs from the payload's length is a
    /// `DecodeError`; an input type this core does not model yields
    /// `Unknown` with the bytes unchanged, never an error.
    pub fn decode(input_type: u16, payload: &Vec<u8>) -> (r: Result<TransactionData, WireError>)
        ensures
            input_size_consistent(input_type, payload@.len() as int) ==> (r matches Ok(d)
                && d.spec_encode() == payload@ && d.spec_input_type() == input_type),
            !input_size_consistent(input_type, payload@.len() as int) ==> r == Err::<
                TransactionData,
                WireError,
            >(WireError::DecodeError),
    {
        if input_type == INPUT_TYPE_ISSUE_ASSET {
            if payload.len() != ISSUE_ASSET_INPUT_SIZE {
                return Err(WireError::DecodeError);
            }
            Ok(TransactionData::IssueAsset(IssueAssetInput::read_from(payload, 0)))
        } else if input_type == INPUT_TYPE_TRANSFER_OWNERSHIP {
            if payload.len() != TRANSFER_OWNERSHIP_INPUT_SIZE {
                return Err(WireError::DecodeError);
            }
            Ok(
                TransactionData::TransferAssetOwnershipAndPossession(
                    TransferAssetOwnershipAndPossessionInput::read_from(payload, 0),
                ),
            )
        } else if input_type == INPUT_TYPE_TRANSFER_ASSET {
            if payload.len() != TRANSFER_ASSET_INPUT_SIZE {
                return Err(WireError::DecodeError);
            }
            Ok(TransactionData::TransferAsset(TransferAssetInput::read_from(payload, 0)))
        } else {
            let mut copy: Vec<u8> = Vec::new();
            let mut i: usize = 0;
            let n = payload.len();
            while i < n
                invariant
                    i <= n,
                    n == payload@.len(),
                    copy@ == payload@.take(i as int),
                decreases n - i,
            {
                copy.push(payload[i]);
                proof {
                    assert(payload@.take((i + 1) as int) =~= payload@.take(i as int).push(
                        payload@[i as int],
                    ));
                }
                i += 1;
            }
            proof {
                assert(payload@.take(n as int) =~= payload@);
            }
            Ok(TransactionData::Unknown(input_type, copy))
        }
    }
}

impl From<TransferAssetInput> for TransactionData {
    fn from(value: TransferAssetInput) -> (r: TransactionData) {
        TransactionData::TransferAsset(value)
    }
}

impl vstd::std_specs::convert::FromSpecImpl<TransferAssetInput> for TransactionData {
    open spec fn obeys_from_spec() -> bool {
        true
    }

    open spec fn from_spec(value: TransferAssetInput) -> TransactionData {
        TransactionData::TransferAsset(value)
    }
}

impl From<IssueAssetInput> for TransactionData {
    fn from(value: IssueAssetInput) -> (r: TransactionData) {
        TransactionData::IssueAsset(value)
    }
}

impl vstd::std_specs::convert::FromSpecImpl<IssueAssetInput> for TransactionData {
    open spec fn obeys_from_spec() -> bool {
        true
    }

    open spec fn from_spec(value: IssueAssetInput) -> TransactionData {
        TransactionData::IssueAsset(value)
    }
}

/// An unsigned transaction: the fixed header plus the declared number of
/// opaque payload bytes.
#[derive(Clone, PartialEq, Eq, Hash, Debug)]
pub struct Transaction {
    pub from: QubicId,
    pub to: QubicId,
    pub amount: u64,
    pub tick: u32,
    pub input_type: u16,
    pub input_size: u16,
    pub payload: Vec<u8>,
}

impl Transaction {
    /// The payload holds exactly the declared number of bytes, and that
    /// number agrees with the declared input type.
    pub open spec fn wf(self) -> bool {
        &&& self.payload@.len() == self.input_size
        &&& input_size_consistent(self.input_type, self.input_size as int)
    }

    /// The exact wire bytes: header fields little-endian, then the payload.
    pub open spec fn spec_encode(self) -> Seq<u8> {
        self.from@ + self.to@ + vstd::bytes::spec_u64_to_le_bytes(self.amount)
            + vstd::bytes::spec_u32_to_le_bytes(self.tick) + vstd::bytes::spec_u16_to_le_bytes(
            self.input_type,
        ) + vstd::bytes::spec_u16_to_le_bytes(self.input_size) + self.payload@
    }

    /// Appends the wire bytes to `out`.
    pub fn write_to(&self, out: &mut Vec<u8>)
        ensures
            final(out)@ == old(out)@ + self.spec_encode(),
    {
        self.from.write_to(out);
        self.to.write_to(out);
        U64::from_native(self.amount).write_to(out);
        U32::from_native(self.tick).write_to(out);
        U16::from_native(self.input_type).write_to(out);
        U16::from_native(self.input_size).write_to(out);
        let mut i: usize = 0;
        let n = self.payload.len();
        let ghost head = old(out)@ + self.from@ + self.to@ + vstd::bytes::spec_u64_to_le_bytes(
            self.amount,
        ) + vstd::bytes::spec_u32_to_le_bytes(self.tick) + vstd::bytes::spec_u16_to_le_bytes(
            self.input_type,
        ) + vstd::bytes::spec_u16_to_le_bytes(self.input_size);
        while i < n
            invariant
                i <= n,
                n == self.payload@.len(),
                out@ == head + self.payload@.take(i as int),
            decreases n - i,
        {
            out.push(self.payload[i]);
            proof {
                assert(head + self.payload@.take((i + 1) as int) =~= (head
                    + self.payload@.take(i as int)).push(self.payload@[i as int]));
            }
            i += 1;
        }
        proof {
            assert(self.payload@.take(n as int) =~= self.payload@);
            assert(out@ =~= old(out)@ + self.spec_encode());
        }
    }

    /// The wire bytes of this transaction.
    pub fn encode(&self) -> (r: Vec<u8>)
        ensures
            r@ == self.spec_encode(),
    {
        let mut v: Vec<u8> = Vec::new();
        self.write_to(&mut v);
        v
    }

    /// Decodes a whole buffer as one unsigned transaction: the fixed
    /// header, then exactly the declared number of payload bytes. Fails
    /// with `DecodeError` when the buffer is shorter than a header, its
    /// length differs from header plus declared size, or a known input
    /// type's required size differs from the declared size; it never
    /// produces a partial record.
    pub fn decode(b: &Vec<u8>) -> (r: Result<Transaction, WireError>)
        ensures
            r matches Ok(t) ==> {
                &&& t.wf()
                &&& t.spec_encode() == b@
                &&& b@.len() >= TRANSACTION_HEADER_SIZE
            },
            r matches Err(e) ==> e == WireError::DecodeError,
            (b@.len() >= TRANSACTION_HEADER_SIZE && b@.len() == TRANSACTION_HEADER_SIZE
                + vstd::bytes::spec_u16_from_le_bytes(b@.subrange(78, 80))
                && input_size_consistent(
                vstd::bytes::spec_u16_from_le_bytes(b@.subrange(76, 78)),
                vstd::bytes::spec_u16_from_le_bytes(b@.subrange(78, 80)) as int,
            )) <==> r is Ok,
    {
        proof {
            vstd::bytes::lemma_auto_spec_u16_to_from_le_bytes();
            vstd::bytes::lemma_auto_spec_u32_to_from_le_bytes();
            vstd::bytes::lemma_auto_spec_u64_to_from_le_bytes();
        }
        let n = b.len();
        if n < TRANSACTION_HEADER_SIZE {
            return Err(WireError::DecodeError);
        }
        let from = QubicId::read_from(b, 0);
        let to = QubicId::read_from(b, 32);
        let amount = U64::read_from(b, 64).to_native();
        let tick = U32::read_from(b, 72).to_native();
        let input_type = U16::read_from(b, 76).to_native();
        let input_size = U16::read_from(b, 78).to_native();
        if n - TRANSACTION_HEADER_SIZE != input_size as usize {
            return Err(WireError::DecodeError);
        }
        if input_type == INPUT_TYPE_ISSUE_ASSET && input_size as usize != ISSUE_ASSET_INPUT_SIZE {
            return Err(WireError::DecodeError);
        }
        if input_type == INPUT_TYPE_TRANSFER_OWNERSHIP && input_size as usize
            != TRANSFER_OWNERSHIP_INPUT_SIZE {
            return Err(WireError::DecodeError);
        }
        if input_type == INPUT_TYPE_TRANSFER_ASSET && input_size as usize
            != TRANSFER_ASSET_INPUT_SIZE {
            return Err(WireError::DecodeError);
        }
        let mut payload: Vec<u8> = Vec::new();
        let mut i: usize = 0;
        while i < n - TRANSACTION_HEADER_SIZE
            invariant
                i <= n - TRANSACTION_HEADER_SIZE,
                n == b@.len(),
                n >= TRANSACTION_HEADER_SIZE,
                payload@ == b@.subrange(80, 80 + i as int),
            decreases n - TRANSACTION_HEADER_SIZE - i,
        {
            payload.push(b[TRANSACTION_HEADER_SIZE + i]);
            proof {
                assert(b@.subrange(80, 80 + (i + 1) as int) =~= b@.subrange(80, 80
                    + i as int).push(b@[80 + i as int]));
            }
            i += 1;
        }
        let t = Transaction { from, to, amount, tick, input_type, input_size, payload };
        proof {
            assert(t.spec_encode() =~= b@);
        }
        Ok(t)
    }

    /// Resolves the payload into its typed form via the declared input
    /// type. The well-formedness invariant rules out the size mismatch, so
    /// resolution always succeeds on a well-formed transaction.
    pub fn transaction_data(&self) -> (r: TransactionData)
        requires
            self.wf(),
        ensures
            r.spec_encode() == self.payload@,
            r.spec_input_type() == self.input_type,
    {
        match TransactionData::decode(self.input_type, &self.payload) {
            Ok(d) => d,
            Err(_) => {
                proof {
                    assert(false);
                }
                TransactionData::Unknown(self.input_type, Vec::new())
            },
        }
    }

    /// Whether this transaction touches `id` as its source or destination.
    pub fn concerns(&self, id: &QubicId) -> (r: bool)
        ensures
            r == (self.to@ == id@ || self.from@ == id@),
    {
        self.to.eq(id) || self.from.eq(id)
    }

    /// Builds an asset-issuance transaction addressed to the asset
    /// contract. The fixed issuance fee is set as the amount here, at
    /// construction, and is not re-derived on decode.
    pub fn issue_asset(from: QubicId, tick: u32, input: &IssueAssetInput) -> (r: Transaction)
        ensures
            r.wf(),
            r.from == from,
            r.to@ == qx_contract_bytes(),
            r.amount == ISSUE_ASSET_FEE,
            r.tick == tick,
            r.input_type == INPUT_TYPE_ISSUE_ASSET,
            r.payload@ == input.spec_encode(),
    {
        proof {
            vstd::bytes::lemma_auto_spec_u64_to_from_le_bytes();
        }
        let payload = input.encode();
        Transaction {
            from,
            to: qx_contract_id(),
            amount: ISSUE_ASSET_FEE,
            tick,
            input_type: INPUT_TYPE_ISSUE_ASSET,
            input_size: 25,
            payload,
        }
    }

    /// Builds an ownership-and-possession transfer transaction addressed
    /// to the asset contract. The fixed transfer fee is set as the amount
    /// here, at construction, and is not re-derived on decode.
    pub fn transfer_asset_ownership(
        from: QubicId,
        tick: u32,
        input: &TransferAssetOwnershipAndPossessionInput,
    ) -> (r: Transaction)
        ensures
            r.wf(),
            r.from == from,
            r.to@ == qx_contract_bytes(),
            r.amount == TRANSFER_FEE,
            r.tick == tick,
            r.input_type == INPUT_TYPE_TRANSFER_OWNERSHIP,
            r.payload@ == input.spec_encode(),
    {
        proof {
            vstd::bytes::lemma_auto_spec_u64_to_from_le_bytes();
        }
        let payload = input.encode();
        Transaction {
            from,
            to: qx_contract_id(),
            amount: TRANSFER_FEE,
            tick,
            input_type: INPUT_TYPE_TRANSFER_OWNERSHIP,
            input_size: 112,
            payload,
        }
    }
}

/// The identity of the asset contract, to which fee-bearing asset
/// transactions are addressed.
pub open spec fn qx_contract_bytes() -> Seq<u8> {
    Seq::new(32, |i: int| if i == 0 { 1u8 } else { 0u8 })
}

/// Builds the asset contract's identity.
pub fn qx_contract_id() -> (r: QubicId)
    ensures
        r@ == qx_contract_bytes(),
{
    let mut b: [u8; 32] = vstd::array::array_fill_for_copy_types(0u8);
    b[0] = 1;
    let r = QubicId::from_bytes(b);
    proof {
        assert(r@ =~= qx_contract_bytes());
    }
    r
}


/// The buffers that decode as one signed transaction: long enough for a
/// header and a signature, sized exactly as the declared payload length
/// demands, with that length agreeing with the declared input type.
pub open spec fn signed_tx_decodable(b: Seq<u8>) -> bool {
    &&& b.len() >= TRANSACTION_HEADER_SIZE + SIGNATURE_SIZE
    &&& b.len() - SIGNATURE_SIZE == TRANSACTION_HEADER_SIZE + vstd::bytes::spec_u16_from_le_bytes(
        b.subrange(78, 80),
    )
    &&& input_size_consistent(
        vstd::bytes::spec_u16_from_le_bytes(b.subrange(76, 78)),
        vstd::bytes::spec_u16_from_le_bytes(b.subrange(78, 80)) as int,
    )
}

/// A transaction together with its signature. Producing or checking the
/// signature is delegated to an external signer capability; this core only
/// shapes the bytes that are signed.
#[derive(Clone, PartialEq, Eq, Hash, Debug)]
pub struct TransactionWithData {
    pub raw_transaction: Transaction,
    pub data: TransactionData,
    pub signature: [u8; 64],
}

impl TransactionWithData {
    /// The typed payload agrees byte-for-byte with the raw transaction.
    pub open spec fn wf(self) -> bool {
        &&& self.raw_transaction.wf()
        &&& self.data.spec_encode() == self.raw_transaction.payload@
        &&& self.data.spec_input_type() == self.raw_transaction.input_type
    }

    /// The exact wire bytes: the unsigned transaction then the signature.
    pub open spec fn spec_encode(self) -> Seq<u8> {
        self.raw_transaction.spec_encode() + self.signature@
    }

    /// The wire bytes of this signed transaction.
    pub fn encode(&self) -> (r: Vec<u8>)
        ensures
            r@ == self.spec_encode(),
    {
        let mut v: Vec<u8> = Vec::new();
        self.raw_transaction.write_to(&mut v);
        let mut i: usize = 0;
        let ghost head = self.raw_transaction.spec_encode();
        while i < 64
            invariant
                i <= 64,
                v@ == head + self.signature@.take(i as int),
            decreases 64 - i,
        {
            v.push(self.signature[i]);
            proof {
                assert(head + self.signature@.take((i + 1) as int) =~= (head
                    + self.signature@.take(i as int)).push(self.signature@[i as int]));
            }
            i += 1;
        }
        proof {
            assert(self.signature@.take(64) =~= self.signature@);
            assert(v@ =~= self.spec_encode());
        }
        v
    }

    /// Decodes a whole buffer as one signed transaction: the unsigned
    /// transaction, then exactly 64 signature bytes. The failure cases are
    /// those of `Transaction::decode`, applied to the buffer without its
    /// final 64 bytes.
    pub fn decode(b: &Vec<u8>) -> (r: Result<TransactionWithData, WireError>)
        ensures
            r matches Ok(t) ==> {
                &&& t.wf()
                &&& t.spec_encode() == b@
            },
            r matches Err(e) ==> e == WireError::DecodeError,
            r is Ok <==> signed_tx_decodable(b@),
    {
        let n = b.len();
        if n < TRANSACTION_HEADER_SIZE + SIGNATURE_SIZE {
            return Err(WireError::DecodeError);
        }
        let mut body: Vec<u8> = Vec::new();
        let mut i: usize = 0;
        while i < n - SIGNATURE_SIZE
            invariant
                i <= n - SIGNATURE_SIZE,
                n == b@.len(),
                n >= TRANSACTION_HEADER_SIZE + SIGNATURE_SIZE,
                body@ == b@.take(i as int),
            decreases n - SIGNATURE_SIZE - i,
        {
            body.push(b[i]);
            proof {
                assert(b@.take((i + 1) as int) =~= b@.take(i as int).push(b@[i as int]));
            }
            i += 1;
        }
        proof {
            assert(body@.subrange(76, 78) =~= b@.subrange(76, 78));
            assert(body@.subrange(78, 80) =~= b@.subrange(78, 80));
        }
        let raw_transaction = match Transaction::decode(&body) {
            Ok(t) => t,
            Err(e) => {
                return Err(e);
            },
        };
        let data = raw_transaction.transaction_data();
        let mut signature: [u8; 64] = vstd::array::array_fill_for_copy_types(0u8);
        let mut j: usize = 0;
        while j < 64
            invariant
                j <= 64,
                n == b@.len(),
                n >= TRANSACTION_HEADER_SIZE + SIGNATURE_SIZE,
                signature@.len() == 64,
                forall|k: int| 0 <= k < j ==> signature@[k] == b@[n - 64 + k],
            decreases 64 - j,
        {
            signature[j] = b[n - 64 + j];
            j += 1;
        }
        let t = TransactionWithData { raw_transaction, data, signature };
        proof {
            assert(body@ =~= b@.take(n - 64));
            assert(t.signature@ =~= b@.subrange(n - 64, n as int));
            assert(t.spec_encode() =~= b@);
        }
        Ok(t)
    }
}

// ---------------------------------------------------------------------------
// Receiving a transaction as transport-encoded text.
// ---------------------------------------------------------------------------
/// What base64 decoding yields on a given text, or nothing when the text is
/// not valid base64.
pub uninterp spec fn base64_decoded(s: Seq<char>) -> Option<Seq<u8>>;

/// Relies on base64's standard-alphabet engine: decoding is a function of
/// the input text alone.
#[verifier::external_body]
fn base64_decode(s: &str) -> (r: Option<Vec<u8>>)
    ensures
        match r {
            Some(v) => base64_decoded(s@) == Some(v@),
            None => base64_decoded(s@) is None,
        },
{
    match <base64::engine::GeneralPurpose as base64::Engine>::decode(
        &base64::engine::general_purpose::STANDARD,
        s,
    ) {
        Ok(v) => Some(v),
        Err(_) => None,
    }
}

/// Decodes a signed transaction from base64-encoded text: text that is not
/// base64 is a `DecodeError`, and the decoded bytes are then read as
/// `TransactionWithData::decode` reads them.
pub fn transaction_from_base64(s: &str) -> (r: Result<TransactionWithData, WireError>)
    ensures
        base64_decoded(s@) is None ==> r == Err::<TransactionWithData, WireError>(
            WireError::DecodeError,
        ),
        r matches Ok(t) ==> {
            &&& t.wf()
            &&& base64_decoded(s@) == Some(t.spec_encode())
        },
        r matches Err(e) ==> e == WireError::DecodeError,
        r is Ok <==> (base64_decoded(s@) matches Some(v) && signed_tx_decodable(v)),
{
    let bytes = match base64_decode(s) {
        Some(v) => v,
        None => {
            return Err(WireError::DecodeError);
        },
    };
    TransactionWithData::decode(&bytes)
}

} // verus!
