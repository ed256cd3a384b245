use crate::errors::WireError;
use crate::identity::QubicId;
use crate::packed::I32;
use crate::packed::U16;
use crate::packed::U32;
use crate::packed::U64;
use vstd::bytes::spec_u16_from_le_bytes;
use vstd::bytes::spec_u32_from_le_bytes;
use vstd::bytes::spec_u64_from_le_bytes;
use vstd::prelude::*;

verus! {

broadcast use vstd::array::group_array_axioms, crate::packed::group_packed_len_axioms, crate::identity::lemma_qubic_id_byte_len;

// ---------------------------------------------------------------------------
// Typed response records. Each decoder takes the payload of an envelope the
// registry has already resolved and sized, and reads the record's fields.
// ---------------------------------------------------------------------------
/// Payload size of a current-tick status record.
pub const TICK_INFO_SIZE: usize = 16;

/// The node's current tick and epoch status.
#[derive(Clone, Copy, PartialEq, Eq, Structural, Debug)]
pub struct TickInfo {
    pub tick_duration: u16,
    pub epoch: u16,
    pub tick: u32,
    pub number_of_aligned_votes: u16,
    pub number_of_misaligned_votes: u16,
    pub initial_tick: u32,
}

impl TickInfo {
    /// Reads a record from a 16-byte payload; any other length is a
    /// `DecodeError`.
    pub fn decode(b: &Vec<u8>) -> (r: Result<TickInfo, WireError>)
        ensures
            b@.len() == TICK_INFO_SIZE ==> (r matches Ok(t) && t.tick_duration
                == spec_u16_from_le_bytes(b@.subrange(0, 2)) && t.epoch == spec_u16_from_le_bytes(
                b@.subrange(2, 4),
            ) && t.tick == spec_u32_from_le_bytes(b@.subrange(4, 8))
                && t.number_of_aligned_votes == spec_u16_from_le_bytes(b@.subrange(8, 10))
                && t.number_of_misaligned_votes == spec_u16_from_le_bytes(b@.subrange(10, 12))
                && t.initial_tick == spec_u32_from_le_bytes(b@.subrange(12, 16))),
            b@.len() != TICK_INFO_SIZE ==> r == Err::<TickInfo, WireError>(
                WireError::DecodeError,
            ),
    {
        if b.len() != TICK_INFO_SIZE {
            return Err(WireError::DecodeError);
        }
        Ok(
            TickInfo {
                tick_duration: U16::read_from(b, 0).to_native(),
                epoch: U16::read_from(b, 2).to_native(),
                tick: U32::read_from(b, 4).to_native(),
                number_of_aligned_votes: U16::read_from(b, 8).to_native(),
                number_of_misaligned_votes: U16::read_from(b, 10).to_native(),
                initial_tick: U32::read_from(b, 12).to_native(),
            },
        )
    }
}

/// The tick, duration, epoch and epoch start a block-height report carries.
#[derive(Clone, Copy, PartialEq, Eq, Structural, Debug)]
pub struct BlockHeight {
    pub tick: u32,
    pub duration: u16,
    pub epoch: u16,
    pub initial_tick: u32,
}

/// Repackages a tick status record as a block-height report.
pub fn block_height_of(t: &TickInfo) -> (r: BlockHeight)
    ensures
        r.tick == t.tick,
        r.duration == t.tick_duration,
        r.epoch == t.epoch,
        r.initial_tick == t.initial_tick,
{
    BlockHeight {
        tick: t.tick,
        duration: t.tick_duration,
        epoch: t.epoch,
        initial_tick: t.initial_tick,
    }
}

/// Payload size of an entity (balance) record body.
pub const ENTITY_SIZE: usize = 64;

/// Payload size of an entity response: the entity body, the tick it was
/// read at, and its spectrum index.
pub const RESPOND_ENTITY_SIZE: usize = 72;

/// One account's balance record.
#[derive(Clone, Copy, PartialEq, Eq, Hash, Debug)]
pub struct Entity {
    pub public_key: QubicId,
    pub incoming_amount: u64,
    pub outgoing_amount: u64,
    pub number_of_incoming_transfers: u32,
    pub number_of_outgoing_transfers: u32,
    pub latest_incoming_transfer_tick: u32,
    pub latest_outgoing_transfer_tick: u32,
}

impl Entity {
    /// The spendable balance: incoming minus outgoing, floored at zero.
    pub fn balance(&self) -> (r: u64)
        ensures
            self.incoming_amount >= self.outgoing_amount ==> r == self.incoming_amount
                - self.outgoing_amount,
            self.incoming_amount < self.outgoing_amount ==> r == 0,
    {
        if self.incoming_amount >= self.outgoing_amount {
            self.incoming_amount - self.outgoing_amount
        } else {
            0
        }
    }

    /// Reads an entity body from 64 bytes starting at `start`.
    pub fn read_from(b: &Vec<u8>, start: usize) -> (r: Entity)
        requires
            start + ENTITY_SIZE <= b@.len(),
        ensures
            r.public_key@ == b@.subrange(start as int, start as int + 32),
            r.incoming_amount == spec_u64_from_le_bytes(
                b@.subrange(start as int + 32, start as int + 40),
            ),
            r.outgoing_amount == spec_u64_from_le_bytes(
                b@.subrange(start as int + 40, start as int + 48),
            ),
            r.number_of_incoming_transfers == spec_u32_from_le_bytes(
                b@.subrange(start as int + 48, start as int + 52),
            ),
            r.number_of_outgoing_transfers == spec_u32_from_le_bytes(
                b@.subrange(start as int + 52, start as int + 56),
            ),
            r.latest_incoming_transfer_tick == spec_u32_from_le_bytes(
                b@.subrange(start as int + 56, start as int + 60),
            ),
            r.latest_outgoing_transfer_tick == spec_u32_from_le_bytes(
                b@.subrange(start as int + 60, start as int + 64),
            ),
    {
        let n = b.len();
        Entity {
            public_key: QubicId::read_from(b, start),
            incoming_amount: U64::read_from(b, start + 32).to_native(),
            outgoing_amount: U64::read_from(b, start + 40).to_native(),
            number_of_incoming_transfers: U32::read_from(b, start + 48).to_native(),
            number_of_outgoing_transfers: U32::read_from(b, start + 52).to_native(),
            latest_incoming_transfer_tick: U32::read_from(b, start + 56).to_native(),
            latest_outgoing_transfer_tick: U32::read_from(b, start + 60).to_native(),
        }
    }
}

/// An entity response: the entity body, the tick it was read at, and its
/// spectrum index.
#[derive(Clone, Copy, PartialEq, Eq, Hash, Debug)]
pub struct RespondEntity {
    pub entity: Entity,
    pub tick: u32,
    pub spectrum_index: i32,
}

impl RespondEntity {
    /// Reads a record from a 72-byte payload; any other length is a
    /// `DecodeError`.
    pub fn decode(b: &Vec<u8>) -> (r: Result<RespondEntity, WireError>)
        ensures
            b@.len() == RESPOND_ENTITY_SIZE ==> (r matches Ok(x) && x.entity.public_key@
                == b@.subrange(0, 32) && x.entity.incoming_amount == spec_u64_from_le_bytes(
                b@.subrange(32, 40),
            ) && x.entity.outgoing_amount == spec_u64_from_le_bytes(b@.subrange(40, 48))
                && x.tick == spec_u32_from_le_bytes(b@.subrange(64, 68)) && x.spectrum_index
                == crate::packed::spec_i32_from_le_bytes(b@.subrange(68, 72))),
            b@.len() != RESPOND_ENTITY_SIZE ==> r == Err::<RespondEntity, WireError>(
                WireError::DecodeError,
            ),
    {
        if b.len() != RESPOND_ENTITY_SIZE {
            return Err(WireError::DecodeError);
        }
        Ok(
            RespondEntity {
                entity: Entity::read_from(b, 0),
                tick: U32::read_from(b, 64).to_native(),
                spectrum_index: I32::read_from(b, 68).to_native(),
            },
        )
    }
}

/// Payload size of a system status record.
pub const SYSTEM_INFO_SIZE: usize = 20;

/// The node's system status.
#[derive(Clone, Copy, PartialEq, Eq, Structural, Debug)]
pub struct SystemInfo {
    pub version: u16,
    pub epoch: u16,
    pub tick: u32,
    pub initial_tick: u32,
    pub latest_created_tick: u32,
    pub number_of_entities: u32,
}

impl SystemInfo {
    /// Reads a record from a 20-byte payload; any other length is a
    /// `DecodeError`.
    pub fn decode(b: &Vec<u8>) -> (r: Result<SystemInfo, WireError>)
        ensures
            b@.len() == SYSTEM_INFO_SIZE ==> (r matches Ok(x) && x.version
                == spec_u16_from_le_bytes(b@.subrange(0, 2)) && x.epoch == spec_u16_from_le_bytes(
                b@.subrange(2, 4),
            ) && x.tick == spec_u32_from_le_bytes(b@.subrange(4, 8)) && x.initial_tick
                == spec_u32_from_le_bytes(b@.subrange(8, 12)) && x.latest_created_tick
                == spec_u32_from_le_bytes(b@.subrange(12, 16)) && x.number_of_entities
                == spec_u32_from_le_bytes(b@.subrange(16, 20))),
            b@.len() != SYSTEM_INFO_SIZE ==> r == Err::<SystemInfo, WireError>(
                WireError::DecodeError,
            ),
    {
        if b.len() != SYSTEM_INFO_SIZE {
            return Err(WireError::DecodeError);
        }
        Ok(
            SystemInfo {
                version: U16::read_from(b, 0).to_native(),
                epoch: U16::read_from(b, 2).to_native(),
                tick: U32::read_from(b, 4).to_native(),
                initial_tick: U32::read_from(b, 8).to_native(),
                latest_created_tick: U32::read_from(b, 12).to_native(),
                number_of_entities: U32::read_from(b, 16).to_native(),
            },
        )
    }

    /// How many ticks the current epoch has run. The node reports the
    /// epoch's start at or before its latest tick; a payload violating that
    /// would underflow, so the caller checks it first.
    pub fn ticks_in_current_epoch(&self) -> (r: u32)
        requires
            self.latest_created_tick >= self.initial_tick,
        ensures
            r == self.latest_created_tick - self.initial_tick,
    {
        self.latest_created_tick - self.initial_tick
    }
}

/// Number of computors in one epoch's list.
pub const NUMBER_OF_COMPUTORS: usize = 676;

/// Payload size of a computor list: the epoch, 676 identities, and a
/// signature.
pub const COMPUTORS_SIZE: usize = 21698;

/// One epoch's computor list.
#[derive(Clone, PartialEq, Eq, Debug)]
pub struct Computors {
    pub epoch: u16,
    pub public_keys: Vec<QubicId>,
    pub signature: Vec<u8>,
}

impl Computors {
    /// Reads a record from a 21698-byte payload; any other length is a
    /// `DecodeError`.
    pub fn decode(b: &Vec<u8>) -> (r: Result<Computors, WireError>)
        ensures
            b@.len() == COMPUTORS_SIZE ==> (r matches Ok(x) && x.epoch == spec_u16_from_le_bytes(
                b@.subrange(0, 2),
            ) && x.public_keys@.len() == NUMBER_OF_COMPUTORS && (forall|i: int|
                0 <= i < NUMBER_OF_COMPUTORS ==> (#[trigger] x.public_keys@[i])@ == b@.subrange(
                    2 + 32 * i,
                    2 + 32 * i + 32,
                )) && x.signature@ == b@.subrange(21634, 21698)),
            b@.len() != COMPUTORS_SIZE ==> r == Err::<Computors, WireError>(
                WireError::DecodeError,
            ),
    {
        let n = b.len();
        if n != COMPUTORS_SIZE {
            return Err(WireError::DecodeError);
        }
        let epoch = U16::read_from(b, 0).to_native();
        let mut public_keys: Vec<QubicId> = Vec::new();
        let mut i: usize = 0;
        while i < NUMBER_OF_COMPUTORS
            invariant
                i <= NUMBER_OF_COMPUTORS,
                n == b@.len(),
                n == COMPUTORS_SIZE,
                public_keys@.len() == i,
                forall|j: int|
                    0 <= j < i ==> (#[trigger] public_keys@[j])@ == b@.subrange(
                        2 + 32 * j,
                        2 + 32 * j + 32,
                    ),
            decreases NUMBER_OF_COMPUTORS - i,
        {
            let id = QubicId::read_from(b, 2 + 32 * i);
            public_keys.push(id);
            i += 1;
        }
        let mut signature: Vec<u8> = Vec::new();
        let mut j: usize = 21634;
        while j < 21698
            invariant
                21634 <= j <= 21698,
                n == b@.len(),
                n == COMPUTORS_SIZE,
                signature@ == b@.subrange(21634, j as int),
            decreases 21698 - j,
        {
            signature.push(b[j]);
            proof {
                assert(b@.subrange(21634, (j + 1) as int) =~= b@.subrange(21634, j as int).push(
                    b@[j as int],
                ));
            }
            j += 1;
        }
        Ok(Computors { epoch, public_keys, signature })
    }
}

} // verus!
