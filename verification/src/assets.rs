use crate::identity::QubicId;
use crate::packed::I64;
use crate::packed::U16;
use crate::packed::U32;
use crate::errors::WireError;
use crate::text::AssetName;
use vstd::prelude::*;

verus! {

broadcast use vstd::array::group_array_axioms, crate::packed::group_packed_len_axioms, crate::text::lemma_asset_name_byte_len, crate::identity::lemma_qubic_id_byte_len;

/// Fee in native currency units charged when constructing a transfer.
pub const TRANSFER_FEE: u64 = 1_000_000;

/// Fee in native currency units charged when constructing an asset issuance.
pub const ISSUE_ASSET_FEE: u64 = 1_000_000_000;

/// Encoded size of an `Issuance` payload.
pub const ISSUANCE_SIZE: usize = 15;

/// Encoded size of an `Ownership` payload.
pub const OWNERSHIP_SIZE: usize = 15;

/// Encoded size of a `Possession` payload.
pub const POSSESSION_SIZE: usize = 15;

/// Encoded size of an `AssetType`: one discriminant byte plus a payload
/// slot as large as the largest variant, the same for every variant.
pub const ASSET_TYPE_SIZE: usize = 16;

/// Encoded size of an `Asset`.
pub const ASSET_SIZE: usize = 48;

/// An asset issuance record: the asset's name, its number of decimal
/// places, and its unit of measurement.
#[derive(Clone, Copy, PartialEq, Eq, Hash, Debug)]
pub struct Issuance {
    pub name: AssetName<7>,
    pub number_of_decimal_places: u8,
    pub unit_of_measurement: [u8; 7],
}

impl Issuance {
    /// The exact wire bytes of this record.
    pub open spec fn spec_encode(self) -> Seq<u8> {
        self.name@ + seq![self.number_of_decimal_places] + self.unit_of_measurement@
    }

    /// Appends the wire bytes to `out`.
    pub fn write_to(&self, out: &mut Vec<u8>)
        ensures
            final(out)@ == old(out)@ + self.spec_encode(),
    {
        self.name.write_to(out);
        out.push(self.number_of_decimal_places);
        let mut i: usize = 0;
        while i < 7
            invariant
                i <= 7,
                out@ == old(out)@ + self.name@ + seq![self.number_of_decimal_places]
                    + self.unit_of_measurement@.take(i as int),
            decreases 7 - i,
        {
            out.push(self.unit_of_measurement[i]);
            proof {
                assert(old(out)@ + self.name@ + seq![self.number_of_decimal_places]
                    + self.unit_of_measurement@.take((i + 1) as int) =~= (old(out)@ + self.name@
                    + seq![self.number_of_decimal_places] + self.unit_of_measurement@.take(
                    i as int,
                )).push(self.unit_of_measurement@[i as int]));
            }
            i += 1;
        }
        proof {
            assert(self.unit_of_measurement@.take(7) =~= self.unit_of_measurement@);
            assert(out@ =~= old(out)@ + self.spec_encode());
        }
    }

    /// Reads a record from 15 bytes starting at `start`.
    pub fn read_from(b: &Vec<u8>, start: usize) -> (r: Issuance)
        requires
            start + ISSUANCE_SIZE <= b@.len(),
        ensures
            r.name@ == b@.subrange(start as int, start as int + 7),
            r.number_of_decimal_places == b@[start as int + 7],
            r.unit_of_measurement@ == b@.subrange(start as int + 8, start as int + 15),
            r.spec_encode() == b@.subrange(start as int, start as int + ISSUANCE_SIZE as int),
    {
        let n = b.len();
        let name = AssetName::<7>::read_from(b, start);
        let number_of_decimal_places = b[start + 7];
        let mut uom: [u8; 7] = vstd::array::array_fill_for_copy_types(0u8);
        let mut i: usize = 0;
        while i < 7
            invariant
                i <= 7,
                n == b@.len(),
                start + 15 <= b@.len(),
                uom@.len() == 7,
                forall|j: int| 0 <= j < i ==> uom@[j] == b@[start + 8 + j],
            decreases 7 - i,
        {
            uom[i] = b[start + 8 + i];
            i += 1;
        }
        let r = Issuance { name, number_of_decimal_places, unit_of_measurement: uom };
        proof {
            assert(r.unit_of_measurement@ =~= b@.subrange(start as int + 8, start as int + 15));
            assert(r.spec_encode() =~= b@.subrange(
                start as int,
                start as int + ISSUANCE_SIZE as int,
            ));
        }
        r
    }
}

/// An asset ownership record.
#[derive(Clone, Copy, PartialEq, Eq, Hash, Debug)]
pub struct Ownership {
    pub padding: u8,
    pub managing_contract_index: U16,
    pub issuance_index: U32,
    pub number_of_units: I64,
}

impl Ownership {
    /// The exact wire bytes of this record.
    pub open spec fn spec_encode(self) -> Seq<u8> {
        seq![self.padding] + self.managing_contract_index@ + self.issuance_index@
            + self.number_of_units@
    }

    /// Appends the wire bytes to `out`.
    pub fn write_to(&self, out: &mut Vec<u8>)
        ensures
            final(out)@ == old(out)@ + self.spec_encode(),
    {
        out.push(self.padding);
        self.managing_contract_index.write_to(out);
        self.issuance_index.write_to(out);
        self.number_of_units.write_to(out);
        proof {
            assert(out@ =~= old(out)@ + self.spec_encode());
        }
    }

    /// Reads a record from 15 bytes starting at `start`.
    pub fn read_from(b: &Vec<u8>, start: usize) -> (r: Ownership)
        requires
            start + OWNERSHIP_SIZE <= b@.len(),
        ensures
            r.padding == b@[start as int],
            r.managing_contract_index@ == b@.subrange(start as int + 1, start as int + 3),
            r.issuance_index@ == b@.subrange(start as int + 3, start as int + 7),
            r.number_of_units@ == b@.subrange(start as int + 7, start as int + 15),
            r.spec_encode() == b@.subrange(start as int, start as int + OWNERSHIP_SIZE as int),
    {
        let n = b.len();
        let r = Ownership {
            padding: b[start],
            managing_contract_index: U16::read_from(b, start + 1),
            issuance_index: U32::read_from(b, start + 3),
            number_of_units: I64::read_from(b, start + 7),
        };
        proof {
            assert(r.spec_encode() =~= b@.subrange(
                start as int,
                start as int + OWNERSHIP_SIZE as int,
            ));
        }
        r
    }
}

/// An asset possession record.
#[derive(Clone, Copy, PartialEq, Eq, Hash, Debug)]
pub struct Possession {
    pub padding: u8,
    pub managing_contract_index: U16,
    pub issuance_index: U32,
    pub number_of_units: I64,
}

impl Possession {
    /// The exact wire bytes of this record.
    pub open spec fn spec_encode(self) -> Seq<u8> {
        seq![self.padding] + self.managing_contract_index@ + self.issuance_index@
            + self.number_of_units@
    }

    /// Appends the wire bytes to `out`.
    pub fn write_to(&self, out: &mut Vec<u8>)
        ensures
            final(out)@ == old(out)@ + self.spec_encode(),
    {
        out.push(self.padding);
        self.managing_contract_index.write_to(out);
        self.issuance_index.write_to(out);
        self.number_of_units.write_to(out);
        proof {
            assert(out@ =~= old(out)@ + self.spec_encode());
        }
    }

    /// Reads a record from 15 bytes starting at `start`.
    pub fn read_from(b: &Vec<u8>, start: usize) -> (r: Possession)
        requires
            start + POSSESSION_SIZE <= b@.len(),
        ensures
            r.padding == b@[start as int],
            r.managing_contract_index@ == b@.subrange(start as int + 1, start as int + 3),
            r.issuance_index@ == b@.subrange(start as int + 3, start as int + 7),
            r.number_of_units@ == b@.subrange(start as int + 7, start as int + 15),
            r.spec_encode() == b@.subrange(start as int, start as int + POSSESSION_SIZE as int),
    {
        let n = b.len();
        let r = Possession {
            padding: b[start],
            managing_contract_index: U16::read_from(b, start + 1),
            issuance_index: U32::read_from(b, start + 3),
            number_of_units: I64::read_from(b, start + 7),
        };
        proof {
            assert(r.spec_encode() =~= b@.subrange(
                start as int,
                start as int + POSSESSION_SIZE as int,
            ));
        }
        r
    }
}

/// The kind of one asset record, a tagged union over nothing, an issuance,
/// an ownership or a possession. On the wire it occupies one discriminant
/// byte plus a fixed payload slot sized to the largest variant, so the
/// encoded size is the same for every variant; the slot bytes past a
/// variant's own payload are zero-filled by this encoder, but a decoder
/// never reads them and a caller must not rely on their value.
#[derive(Clone, Copy, PartialEq, Eq, Hash, Debug)]
pub enum AssetType {
    Empty,
    Issuance(Issuance),
    Ownership(Ownership),
    Possession(Possession),
}

impl AssetType {
    /// The exact wire bytes: discriminant, payload, zero fill up to the
    /// fixed slot size.
    pub open spec fn spec_encode(self) -> Seq<u8> {
        match self {
            AssetType::Empty => seq![0u8] + Seq::new(15, |_i: int| 0u8),
            AssetType::Issuance(x) => seq![1u8] + x.spec_encode(),
            AssetType::Ownership(x) => seq![2u8] + x.spec_encode(),
            AssetType::Possession(x) => seq![3u8] + x.spec_encode(),
        }
    }

    /// Appends the wire bytes to `out`.
    pub fn write_to(&self, out: &mut Vec<u8>)
        ensures
            final(out)@ == old(out)@ + self.spec_encode(),
    {
        match self {
            AssetType::Empty => {
                out.push(0);
                let mut i: usize = 0;
                while i < 15
                    invariant
                        i <= 15,
                        out@ == old(out)@ + seq![0u8] + Seq::new(i as nat, |_i: int| 0u8),
                    decreases 15 - i,
                {
                    out.push(0);
                    proof {
                        assert(old(out)@ + seq![0u8] + Seq::new((i + 1) as nat, |_i: int| 0u8)
                            =~= (old(out)@ + seq![0u8] + Seq::new(i as nat, |_i: int| 0u8)).push(
                            0u8,
                        ));
                    }
                    i += 1;
                }
                proof {
                    assert(out@ =~= old(out)@ + self.spec_encode());
                }
            },
            AssetType::Issuance(x) => {
                out.push(1);
                x.write_to(out);
                proof {
                    assert(out@ =~= old(out)@ + self.spec_encode());
                }
            },
            AssetType::Ownership(x) => {
                out.push(2);
                x.write_to(out);
                proof {
                    assert(out@ =~= old(out)@ + self.spec_encode());
                }
            },
            AssetType::Possession(x) => {
                out.push(3);
                x.write_to(out);
                proof {
                    assert(out@ =~= old(out)@ + self.spec_encode());
                }
            },
        }
    }

    /// Reads a record from the fixed 16-byte slot starting at `start`. The
    /// discriminant byte selects the variant; bytes past the variant's own
    /// payload are never read. An unknown discriminant is a `DecodeError`.
    pub fn read_from(b: &Vec<u8>, start: usize) -> (r: Result<AssetType, WireError>)
        requires
            start + ASSET_TYPE_SIZE <= b@.len(),
        ensures
            b@[start as int] == 0 ==> r == Ok::<AssetType, WireError>(AssetType::Empty),
            b@[start as int] == 1 ==> (r matches Ok(AssetType::Issuance(x)) && x.spec_encode()
                == b@.subrange(start as int + 1, start as int + 16)),
            b@[start as int] == 2 ==> (r matches Ok(AssetType::Ownership(x)) && x.spec_encode()
                == b@.subrange(start as int + 1, start as int + 16)),
            b@[start as int] == 3 ==> (r matches Ok(AssetType::Possession(x)) && x.spec_encode()
                == b@.subrange(start as int + 1, start as int + 16)),
            b@[start as int] > 3 ==> r == Err::<AssetType, WireError>(WireError::DecodeError),
    {
        let n = b.len();
        let d = b[start];
        if d == 0 {
            Ok(AssetType::Empty)
        } else if d == 1 {
            Ok(AssetType::Issuance(Issuance::read_from(b, start + 1)))
        } else if d == 2 {
            Ok(AssetType::Ownership(Ownership::read_from(b, start + 1)))
        } else if d == 3 {
            Ok(AssetType::Possession(Possession::read_from(b, start + 1)))
        } else {
            Err(WireError::DecodeError)
        }
    }
}

/// The serialized size of an `AssetType` is the same for all four variants:
/// the wire protocol allocates a fixed slot per asset record regardless of
/// kind.
pub proof fn lemma_asset_type_size_uniform(a: AssetType, b: AssetType)
    ensures
        a.spec_encode().len() == ASSET_TYPE_SIZE,
        a.spec_encode().len() == b.spec_encode().len(),
{
}

/// One asset record: the holder's identity plus the asset kind.
#[derive(Clone, Copy, PartialEq, Eq, Hash, Debug)]
pub struct Asset {
    pub public_key: QubicId,
    pub asset_type: AssetType,
}

impl Asset {
    /// The exact wire bytes of this record.
    pub open spec fn spec_encode(self) -> Seq<u8> {
        self.public_key@ + self.asset_type.spec_encode()
    }

    /// Appends the wire bytes to `out`.
    pub fn write_to(&self, out: &mut Vec<u8>)
        ensures
            final(out)@ == old(out)@ + self.spec_encode(),
    {
        self.public_key.write_to(out);
        self.asset_type.write_to(out);
        proof {
            assert(out@ =~= old(out)@ + self.spec_encode());
        }
    }

    /// Reads a record from 48 bytes starting at `start`.
    pub fn read_from(b: &Vec<u8>, start: usize) -> (r: Result<Asset, WireError>)
        requires
            start + ASSET_SIZE <= b@.len(),
        ensures
            r matches Ok(a) ==> a.public_key@ == b@.subrange(start as int, start as int + 32),
            b@[start as int + 32] <= 3 ==> r matches Ok(a),
            b@[start as int + 32] > 3 ==> r == Err::<Asset, WireError>(WireError::DecodeError),
            r matches Ok(a) ==> match a.asset_type {
                AssetType::Empty => b@[start as int + 32] == 0,
                AssetType::Issuance(x) => b@[start as int + 32] == 1 && x.spec_encode()
                    == b@.subrange(start as int + 33, start as int + 48),
                AssetType::Ownership(x) => b@[start as int + 32] == 2 && x.spec_encode()
                    == b@.subrange(start as int + 33, start as int + 48),
                AssetType::Possession(x) => b@[start as int + 32] == 3 && x.spec_encode()
                    == b@.subrange(start as int + 33, start as int + 48),
            },
    {
        let n = b.len();
        let public_key = QubicId::read_from(b, start);
        let asset_type = match AssetType::read_from(b, start + 32) {
            Ok(t) => t,
            Err(e) => {
                return Err(e);
            },
        };
        Ok(Asset { public_key, asset_type })
    }
}


/// An `Asset` value `a` is what decoding `b` at `start` yields: the identity
/// bytes, the discriminant, and the variant payload bytes all agree.
pub open spec fn asset_decodes(b: Seq<u8>, start: int, a: Asset) -> bool {
    &&& a.public_key@ == b.subrange(start, start + 32)
    &&& match a.asset_type {
        AssetType::Empty => b[start + 32] == 0,
        AssetType::Issuance(x) => b[start + 32] == 1 && x.spec_encode() == b.subrange(
            start + 33,
            start + 48,
        ),
        AssetType::Ownership(x) => b[start + 32] == 2 && x.spec_encode() == b.subrange(
            start + 33,
            start + 48,
        ),
        AssetType::Possession(x) => b[start + 32] == 3 && x.spec_encode() == b.subrange(
            start + 33,
            start + 48,
        ),
    }
}

/// The discriminant byte of the asset record at `start` names a known kind.
pub open spec fn asset_tag_ok(b: Seq<u8>, start: int) -> bool {
    b[start + 32] <= 3
}

/// Request payload of the asset-fee query; it carries no bytes.
#[derive(Clone, Copy, PartialEq, Eq, Structural, Debug)]
pub struct FeesInput;

impl FeesInput {
    /// The exact wire bytes of this record: none.
    pub open spec fn spec_encode(self) -> Seq<u8> {
        Seq::empty()
    }

    /// Appends the wire bytes to `out`: nothing.
    pub fn write_to(&self, out: &mut Vec<u8>)
        ensures
            final(out)@ == old(out)@ + self.spec_encode(),
    {
        proof {
            assert(out@ =~= old(out)@ + self.spec_encode());
        }
    }
}

/// Encoded size of a `FeesOutput`.
pub const FEES_OUTPUT_SIZE: usize = 12;

/// Response payload of the asset-fee query.
#[derive(Clone, Copy, PartialEq, Eq, Structural, Debug)]
pub struct FeesOutput {
    pub asset_issuance_fee: u32,
    pub transfer_fee: u32,
    pub trade_fee: u32,
}

impl FeesOutput {
    /// The exact wire bytes of this record.
    pub open spec fn spec_encode(self) -> Seq<u8> {
        vstd::bytes::spec_u32_to_le_bytes(self.asset_issuance_fee)
            + vstd::bytes::spec_u32_to_le_bytes(self.transfer_fee)
            + vstd::bytes::spec_u32_to_le_bytes(self.trade_fee)
    }

    /// Appends the wire bytes to `out`.
    pub fn write_to(&self, out: &mut Vec<u8>)
        ensures
            final(out)@ == old(out)@ + self.spec_encode(),
    {
        U32::from_native(self.asset_issuance_fee).write_to(out);
        U32::from_native(self.transfer_fee).write_to(out);
        U32::from_native(self.trade_fee).write_to(out);
        proof {
            assert(out@ =~= old(out)@ + self.spec_encode());
        }
    }

    /// Reads a record from 12 bytes starting at `start`.
    pub fn read_from(b: &Vec<u8>, start: usize) -> (r: FeesOutput)
        requires
            start + FEES_OUTPUT_SIZE <= b@.len(),
        ensures
            r.asset_issuance_fee == vstd::bytes::spec_u32_from_le_bytes(
                b@.subrange(start as int, start as int + 4),
            ),
            r.transfer_fee == vstd::bytes::spec_u32_from_le_bytes(
                b@.subrange(start as int + 4, start as int + 8),
            ),
            r.trade_fee == vstd::bytes::spec_u32_from_le_bytes(
                b@.subrange(start as int + 8, start as int + 12),
            ),
    {
        let n = b.len();
        FeesOutput {
            asset_issuance_fee: U32::read_from(b, start).to_native(),
            transfer_fee: U32::read_from(b, start + 4).to_native(),
            trade_fee: U32::read_from(b, start + 8).to_native(),
        }
    }
}

/// Encoded size of a `TransferAssetInput`.
pub const TRANSFER_ASSET_INPUT_SIZE: usize = 32;

/// Transaction payload transferring native funds or an asset to a
/// destination identity.
#[derive(Clone, Copy, PartialEq, Eq, Hash, Debug)]
pub struct TransferAssetInput {
    pub destination: QubicId,
}

impl TransferAssetInput {
    /// The exact wire bytes of this record.
    pub open spec fn spec_encode(self) -> Seq<u8> {
        self.destination@
    }

    /// Appends the wire bytes to `out`.
    pub fn write_to(&self, out: &mut Vec<u8>)
        ensures
            final(out)@ == old(out)@ + self.spec_encode(),
    {
        self.destination.write_to(out);
    }

    /// The wire bytes of this record.
    pub fn encode(&self) -> (r: Vec<u8>)
        ensures
            r@ == self.spec_encode(),
    {
        let mut v: Vec<u8> = Vec::new();
        self.write_to(&mut v);
        v
    }

    /// Reads a record from 32 bytes starting at `start`.
    pub fn read_from(b: &Vec<u8>, start: usize) -> (r: TransferAssetInput)
        requires
            start + TRANSFER_ASSET_INPUT_SIZE <= b@.len(),
        ensures
            r.spec_encode() == b@.subrange(
                start as int,
                start as int + TRANSFER_ASSET_INPUT_SIZE as int,
            ),
    {
        TransferAssetInput { destination: QubicId::read_from(b, start) }
    }
}

/// Encoded size of an `IssueAssetInput`.
pub const ISSUE_ASSET_INPUT_SIZE: usize = 25;

/// Transaction payload issuing a new asset.
#[derive(Clone, Copy, PartialEq, Eq, Hash, Debug)]
pub struct IssueAssetInput {
    pub name: AssetName<8>,
    pub number_of_units: i64,
    pub unit_of_measurement: u64,
    pub number_of_decimal_places: i8,
}

impl IssueAssetInput {
    /// The exact wire bytes of this record.
    pub open spec fn spec_encode(self) -> Seq<u8> {
        self.name@ + crate::packed::spec_i64_to_le_bytes(self.number_of_units)
            + vstd::bytes::spec_u64_to_le_bytes(self.unit_of_measurement) + seq![
            self.number_of_decimal_places as u8,
        ]
    }

    /// Appends the wire bytes to `out`.
    pub fn write_to(&self, out: &mut Vec<u8>)
        ensures
            final(out)@ == old(out)@ + self.spec_encode(),
    {
        self.name.write_to(out);
        crate::packed::I64::from_native(self.number_of_units).write_to(out);
        crate::packed::U64::from_native(self.unit_of_measurement).write_to(out);
        out.push(self.number_of_decimal_places as u8);
        proof {
            assert(out@ =~= old(out)@ + self.spec_encode());
        }
    }

    /// The wire bytes of this record.
    pub fn encode(&self) -> (r: Vec<u8>)
        ensures
            r@ == self.spec_encode(),
    {
        let mut v: Vec<u8> = Vec::new();
        self.write_to(&mut v);
        v
    }

    /// Reads a record from 25 bytes starting at `start`.
    pub fn read_from(b: &Vec<u8>, start: usize) -> (r: IssueAssetInput)
        requires
            start + ISSUE_ASSET_INPUT_SIZE <= b@.len(),
        ensures
            r.name@ == b@.subrange(start as int, start as int + 8),
            r.number_of_units == crate::packed::spec_i64_from_le_bytes(
                b@.subrange(start as int + 8, start as int + 16),
            ),
            r.unit_of_measurement == vstd::bytes::spec_u64_from_le_bytes(
                b@.subrange(start as int + 16, start as int + 24),
            ),
            r.number_of_decimal_places == b@[start as int + 24] as i8,
            r.spec_encode() == b@.subrange(
                start as int,
                start as int + ISSUE_ASSET_INPUT_SIZE as int,
            ),
    {
        let n = b.len();
        let r = IssueAssetInput {
            name: AssetName::<8>::read_from(b, start),
            number_of_units: crate::packed::I64::read_from(b, start + 8).to_native(),
            unit_of_measurement: crate::packed::U64::read_from(b, start + 16).to_native(),
            number_of_decimal_places: b[start + 24] as i8,
        };
        proof {
            vstd::bytes::lemma_auto_spec_u64_to_from_le_bytes();
            crate::packed::lemma_i64_bytes_round(b@.subrange(start as int + 8, start as int + 16));
            let x: u8 = b@[start as int + 24];
            assert(x as i8 as u8 == x) by (bit_vector);
            assert(r.spec_encode() =~= b@.subrange(
                start as int,
                start as int + ISSUE_ASSET_INPUT_SIZE as int,
            ));
        }
        r
    }
}

/// Encoded size of an `IssueAssetOutput`.
pub const ISSUE_ASSET_OUTPUT_SIZE: usize = 8;

/// Response payload of an asset issuance.
#[derive(Clone, Copy, PartialEq, Eq, Structural, Debug)]
pub struct IssueAssetOutput {
    pub issued_number_of_units: i64,
}

impl IssueAssetOutput {
    /// The exact wire bytes of this record.
    pub open spec fn spec_encode(self) -> Seq<u8> {
        crate::packed::spec_i64_to_le_bytes(self.issued_number_of_units)
    }

    /// Appends the wire bytes to `out`.
    pub fn write_to(&self, out: &mut Vec<u8>)
        ensures
            final(out)@ == old(out)@ + self.spec_encode(),
    {
        crate::packed::I64::from_native(self.issued_number_of_units).write_to(out);
    }

    /// Reads a record from 8 bytes starting at `start`.
    pub fn read_from(b: &Vec<u8>, start: usize) -> (r: IssueAssetOutput)
        requires
            start + ISSUE_ASSET_OUTPUT_SIZE <= b@.len(),
        ensures
            r.issued_number_of_units == crate::packed::spec_i64_from_le_bytes(
                b@.subrange(start as int, start as int + 8),
            ),
    {
        IssueAssetOutput {
            issued_number_of_units: crate::packed::I64::read_from(b, start).to_native(),
        }
    }
}

/// Encoded size of a `TransferAssetOwnershipAndPossessionInput`.
pub const TRANSFER_OWNERSHIP_INPUT_SIZE: usize = 112;

/// Transaction payload transferring both ownership and possession of an
/// asset to a new owner.
#[derive(Clone, Copy, PartialEq, Eq, Hash, Debug)]
pub struct TransferAssetOwnershipAndPossessionInput {
    pub issuer: QubicId,
    pub possessor: QubicId,
    pub new_owner: QubicId,
    pub asset_name: AssetName<8>,
    pub number_of_units: i64,
}

impl TransferAssetOwnershipAndPossessionInput {
    /// The exact wire bytes of this record.
    pub open spec fn spec_encode(self) -> Seq<u8> {
        self.issuer@ + self.possessor@ + self.new_owner@ + self.asset_name@
            + crate::packed::spec_i64_to_le_bytes(self.number_of_units)
    }

    /// Appends the wire bytes to `out`.
    pub fn write_to(&self, out: &mut Vec<u8>)
        ensures
            final(out)@ == old(out)@ + self.spec_encode(),
    {
        self.issuer.write_to(out);
        self.possessor.write_to(out);
        self.new_owner.write_to(out);
        self.asset_name.write_to(out);
        crate::packed::I64::from_native(self.number_of_units).write_to(out);
        proof {
            assert(out@ =~= old(out)@ + self.spec_encode());
        }
    }

    /// The wire bytes of this record.
    pub fn encode(&self) -> (r: Vec<u8>)
        ensures
            r@ == self.spec_encode(),
    {
        let mut v: Vec<u8> = Vec::new();
        self.write_to(&mut v);
        v
    }

    /// Reads a record from 112 bytes starting at `start`.
    pub fn read_from(b: &Vec<u8>, start: usize) -> (r:
        TransferAssetOwnershipAndPossessionInput)
        requires
            start + TRANSFER_OWNERSHIP_INPUT_SIZE <= b@.len(),
        ensures
            r.issuer@ == b@.subrange(start as int, start as int + 32),
            r.possessor@ == b@.subrange(start as int + 32, start as int + 64),
            r.new_owner@ == b@.subrange(start as int + 64, start as int + 96),
            r.asset_name@ == b@.subrange(start as int + 96, start as int + 104),
            r.number_of_units == crate::packed::spec_i64_from_le_bytes(
                b@.subrange(start as int + 104, start as int + 112),
            ),
            r.spec_encode() == b@.subrange(
                start as int,
                start as int + TRANSFER_OWNERSHIP_INPUT_SIZE as int,
            ),
    {
        let n = b.len();
        let r = TransferAssetOwnershipAndPossessionInput {
            issuer: QubicId::read_from(b, start),
            possessor: QubicId::read_from(b, start + 32),
            new_owner: QubicId::read_from(b, start + 64),
            asset_name: AssetName::<8>::read_from(b, start + 96),
            number_of_units: crate::packed::I64::read_from(b, start + 104).to_native(),
        };
        proof {
            crate::packed::lemma_i64_bytes_round(
                b@.subrange(start as int + 104, start as int + 112),
            );
            assert(r.spec_encode() =~= b@.subrange(
                start as int,
                start as int + TRANSFER_OWNERSHIP_INPUT_SIZE as int,
            ));
        }
        r
    }
}

/// Encoded size of a `TranferAssetOwnershipAndPossessionOutput`.
pub const TRANSFER_OWNERSHIP_OUTPUT_SIZE: usize = 8;

/// Response payload of an ownership-and-possession transfer.
#[derive(Clone, Copy, PartialEq, Eq, Structural, Debug)]
pub struct TranferAssetOwnershipAndPossessionOutput {
    pub transferred_number_of_units: i64,
}

impl TranferAssetOwnershipAndPossessionOutput {
    /// The exact wire bytes of this record.
    pub open spec fn spec_encode(self) -> Seq<u8> {
        crate::packed::spec_i64_to_le_bytes(self.transferred_number_of_units)
    }

    /// Appends the wire bytes to `out`.
    pub fn write_to(&self, out: &mut Vec<u8>)
        ensures
            final(out)@ == old(out)@ + self.spec_encode(),
    {
        crate::packed::I64::from_native(self.transferred_number_of_units).write_to(out);
    }

    /// Reads a record from 8 bytes starting at `start`.
    pub fn read_from(b: &Vec<u8>, start: usize) -> (r:
        TranferAssetOwnershipAndPossessionOutput)
        requires
            start + TRANSFER_OWNERSHIP_OUTPUT_SIZE <= b@.len(),
        ensures
            r.transferred_number_of_units == crate::packed::spec_i64_from_le_bytes(
                b@.subrange(start as int, start as int + 8),
            ),
    {
        TranferAssetOwnershipAndPossessionOutput {
            transferred_number_of_units: crate::packed::I64::read_from(b, start).to_native(),
        }
    }
}

/// Encoded size of each asset request record.
pub const REQUEST_ASSET_SIZE: usize = 32;

/// Requests the issuance records of an identity.
#[derive(Clone, Copy, PartialEq, Eq, Hash, Debug)]
pub struct RequestIssuedAsset {
    pub public_key: QubicId,
}

impl RequestIssuedAsset {
    /// The exact wire bytes of this record.
    pub open spec fn spec_encode(self) -> Seq<u8> {
        self.public_key@
    }

    /// The wire bytes of this record.
    pub fn encode(&self) -> (r: Vec<u8>)
        ensures
            r@ == self.spec_encode(),
    {
        let mut v: Vec<u8> = Vec::new();
        self.public_key.write_to(&mut v);
        v
    }

    /// Reads a record from 32 bytes starting at `start`.
    pub fn read_from(b: &Vec<u8>, start: usize) -> (r: RequestIssuedAsset)
        requires
            start + REQUEST_ASSET_SIZE <= b@.len(),
        ensures
            r.spec_encode() == b@.subrange(start as int, start as int + 32),
    {
        RequestIssuedAsset { public_key: QubicId::read_from(b, start) }
    }
}

/// Encoded size of a `RespondIssuedAsset`.
pub const RESPOND_ISSUED_ASSET_SIZE: usize = 52;

/// One issuance record of the requested identity, with the tick it was read
/// at.
#[derive(Clone, Copy, PartialEq, Eq, Hash, Debug)]
pub struct RespondIssuedAsset {
    pub asset: Asset,
    pub tick: u32,
}

impl RespondIssuedAsset {
    /// The exact wire bytes of this record.
    pub open spec fn spec_encode(self) -> Seq<u8> {
        self.asset.spec_encode() + vstd::bytes::spec_u32_to_le_bytes(self.tick)
    }

    /// The wire bytes of this record.
    pub fn encode(&self) -> (r: Vec<u8>)
        ensures
            r@ == self.spec_encode(),
    {
        let mut v: Vec<u8> = Vec::new();
        self.asset.write_to(&mut v);
        U32::from_native(self.tick).write_to(&mut v);
        proof {
            assert(v@ =~= self.spec_encode());
        }
        v
    }

    /// Reads a record from 52 bytes starting at `start`; fails with
    /// `DecodeError` on an unknown asset kind.
    pub fn read_from(b: &Vec<u8>, start: usize) -> (r: Result<RespondIssuedAsset, WireError>)
        requires
            start + RESPOND_ISSUED_ASSET_SIZE <= b@.len(),
        ensures
            asset_tag_ok(b@, start as int) ==> (r matches Ok(x) && asset_decodes(
                b@,
                start as int,
                x.asset,
            ) && x.tick == vstd::bytes::spec_u32_from_le_bytes(
                b@.subrange(start as int + 48, start as int + 52),
            )),
            !asset_tag_ok(b@, start as int) ==> r == Err::<RespondIssuedAsset, WireError>(
                WireError::DecodeError,
            ),
    {
        let n = b.len();
        let asset = match Asset::read_from(b, start) {
            Ok(a) => a,
            Err(e) => {
                return Err(e);
            },
        };
        let tick = U32::read_from(b, start + 48).to_native();
        Ok(RespondIssuedAsset { asset, tick })
    }
}

/// Requests the ownership records of an identity.
#[derive(Clone, Copy, PartialEq, Eq, Hash, Debug)]
pub struct RequestOwnedAsset {
    pub public_key: QubicId,
}

impl RequestOwnedAsset {
    /// The exact wire bytes of this record.
    pub open spec fn spec_encode(self) -> Seq<u8> {
        self.public_key@
    }

    /// The wire bytes of this record.
    pub fn encode(&self) -> (r: Vec<u8>)
        ensures
            r@ == self.spec_encode(),
    {
        let mut v: Vec<u8> = Vec::new();
        self.public_key.write_to(&mut v);
        v
    }

    /// Reads a record from 32 bytes starting at `start`.
    pub fn read_from(b: &Vec<u8>, start: usize) -> (r: RequestOwnedAsset)
        requires
            start + REQUEST_ASSET_SIZE <= b@.len(),
        ensures
            r.spec_encode() == b@.subrange(start as int, start as int + 32),
    {
        RequestOwnedAsset { public_key: QubicId::read_from(b, start) }
    }
}

/// Encoded size of a `RespondOwnedAsset`.
pub const RESPOND_OWNED_ASSET_SIZE: usize = 100;

/// One ownership record with its issuance record and the tick it was read
/// at.
#[derive(Clone, Copy, PartialEq, Eq, Hash, Debug)]
pub struct RespondOwnedAsset {
    pub asset: Asset,
    pub issuance_asset: Asset,
    pub tick: u32,
}

impl RespondOwnedAsset {
    /// The exact wire bytes of this record.
    pub open spec fn spec_encode(self) -> Seq<u8> {
        self.asset.spec_encode() + self.issuance_asset.spec_encode()
            + vstd::bytes::spec_u32_to_le_bytes(self.tick)
    }

    /// The wire bytes of this record.
    pub fn encode(&self) -> (r: Vec<u8>)
        ensures
            r@ == self.spec_encode(),
    {
        let mut v: Vec<u8> = Vec::new();
        self.asset.write_to(&mut v);
        self.issuance_asset.write_to(&mut v);
        U32::from_native(self.tick).write_to(&mut v);
        proof {
            assert(v@ =~= self.spec_encode());
        }
        v
    }

    /// Reads a record from 100 bytes starting at `start`; fails with
    /// `DecodeError` on an unknown asset kind.
    pub fn read_from(b: &Vec<u8>, start: usize) -> (r: Result<RespondOwnedAsset, WireError>)
        requires
            start + RESPOND_OWNED_ASSET_SIZE <= b@.len(),
        ensures
            asset_tag_ok(b@, start as int) && asset_tag_ok(b@, start as int + 48) ==> (r
                matches Ok(x) && asset_decodes(b@, start as int, x.asset) && asset_decodes(
                b@,
                start as int + 48,
                x.issuance_asset,
            ) && x.tick == vstd::bytes::spec_u32_from_le_bytes(
                b@.subrange(start as int + 96, start as int + 100),
            )),
            !(asset_tag_ok(b@, start as int) && asset_tag_ok(b@, start as int + 48)) ==> r
                == Err::<RespondOwnedAsset, WireError>(WireError::DecodeError),
    {
        let n = b.len();
        let asset = match Asset::read_from(b, start) {
            Ok(a) => a,
            Err(e) => {
                return Err(e);
            },
        };
        let issuance_asset = match Asset::read_from(b, start + 48) {
            Ok(a) => a,
            Err(e) => {
                return Err(e);
            },
        };
        let tick = U32::read_from(b, start + 96).to_native();
        Ok(RespondOwnedAsset { asset, issuance_asset, tick })
    }
}

/// Requests the possession records of an identity.
#[derive(Clone, Copy, PartialEq, Eq, Hash, Debug)]
pub struct RequestPossessedAsset {
    pub public_key: QubicId,
}

impl RequestPossessedAsset {
    /// The exact wire bytes of this record.
    pub open spec fn spec_encode(self) -> Seq<u8> {
        self.public_key@
    }

    /// The wire bytes of this record.
    pub fn encode(&self) -> (r: Vec<u8>)
        ensures
            r@ == self.spec_encode(),
    {
        let mut v: Vec<u8> = Vec::new();
        self.public_key.write_to(&mut v);
        v
    }

    /// Reads a record from 32 bytes starting at `start`.
    pub fn read_from(b: &Vec<u8>, start: usize) -> (r: RequestPossessedAsset)
        requires
            start + REQUEST_ASSET_SIZE <= b@.len(),
        ensures
            r.spec_encode() == b@.subrange(start as int, start as int + 32),
    {
        RequestPossessedAsset { public_key: QubicId::read_from(b, start) }
    }
}

/// Encoded size of a `RespondPossessedAsset`.
pub const RESPOND_POSSESSED_ASSET_SIZE: usize = 148;

/// One possession record with its ownership and issuance records and the
/// tick it was read at.
#[derive(Clone, Copy, PartialEq, Eq, Hash, Debug)]
pub struct RespondPossessedAsset {
    pub asset: Asset,
    pub ownership_asset: Asset,
    pub issuance_asset: Asset,
    pub tick: u32,
}

impl RespondPossessedAsset {
    /// The exact wire bytes of this record.
    pub open spec fn spec_encode(self) -> Seq<u8> {
        self.asset.spec_encode() + self.ownership_asset.spec_encode()
            + self.issuance_asset.spec_encode() + vstd::bytes::spec_u32_to_le_bytes(self.tick)
    }

    /// The wire bytes of this record.
    pub fn encode(&self) -> (r: Vec<u8>)
        ensures
            r@ == self.spec_encode(),
    {
        let mut v: Vec<u8> = Vec::new();
        self.asset.write_to(&mut v);
        self.ownership_asset.write_to(&mut v);
        self.issuance_asset.write_to(&mut v);
        U32::from_native(self.tick).write_to(&mut v);
        proof {
            assert(v@ =~= self.spec_encode());
        }
        v
    }

    /// Reads a record from 148 bytes starting at `start`; fails with
    /// `DecodeError` on an unknown asset kind.
    pub fn read_from(b: &Vec<u8>, start: usize) -> (r: Result<
        RespondPossessedAsset,
        WireError,
    >)
        requires
            start + RESPOND_POSSESSED_ASSET_SIZE <= b@.len(),
        ensures
            asset_tag_ok(b@, start as int) && asset_tag_ok(b@, start as int + 48)
                && asset_tag_ok(b@, start as int + 96) ==> (r matches Ok(x) && asset_decodes(
                b@,
                start as int,
                x.asset,
            ) && asset_decodes(b@, start as int + 48, x.ownership_asset) && asset_decodes(
                b@,
                start as int + 96,
                x.issuance_asset,
            ) && x.tick == vstd::bytes::spec_u32_from_le_bytes(
                b@.subrange(start as int + 144, start as int + 148),
            )),
            !(asset_tag_ok(b@, start as int) && asset_tag_ok(b@, start as int + 48)
                && asset_tag_ok(b@, start as int + 96)) ==> r == Err::<
                RespondPossessedAsset,
                WireError,
            >(WireError::DecodeError),
    {
        let n = b.len();
        let asset = match Asset::read_from(b, start) {
            Ok(a) => a,
            Err(e) => {
                return Err(e);
            },
        };
        let ownership_asset = match Asset::read_from(b, start + 48) {
            Ok(a) => a,
            Err(e) => {
                return Err(e);
            },
        };
        let issuance_asset = match Asset::read_from(b, start + 96) {
            Ok(a) => a,
            Err(e) => {
                return Err(e);
            },
        };
        let tick = U32::read_from(b, start + 144).to_native();
        Ok(RespondPossessedAsset { asset, ownership_asset, issuance_asset, tick })
    }
}

} // verus!
