//! Block headers as the peer sends them, and what decoding yields.

use vstd::prelude::*;
use pallas::ledger::traverse::wellknown::GenesisValues;
use pallas::ledger::traverse::MultiEraHeader;
use crate::point::BlockHash;
use crate::point::Point;
use crate::policy::Operation;
use crate::policy::WorkerError;
use crate::policy::policy;

verus! {

/// A header as it arrives on the wire: the era variant, the prefix that the
/// first era adds, and the encoded header.
#[derive(Clone, Debug, PartialEq, Eq)]
pub struct HeaderContent {
    pub variant: u8,
    pub byron_prefix: Option<(u8, u64)>,
    pub cbor: Vec<u8>,
}

/// Mathematical value of a [`HeaderContent`].
pub struct HeaderContentView {
    pub variant: u8,
    pub byron_prefix: Option<(u8, u64)>,
    pub cbor: Seq<u8>,
}

impl View for HeaderContent {
    type V = HeaderContentView;

    open spec fn view(&self) -> HeaderContentView {
        HeaderContentView {
            variant: self.variant,
            byron_prefix: self.byron_prefix,
            cbor: self.cbor@,
        }
    }
}

/// Where a header places its block.
#[derive(Clone, Copy, Debug, PartialEq, Eq, Structural)]
pub enum Position {
    /// A boundary block, which opens this epoch of the first era.
    Boundary(u64),
    /// A block of the first era, in this epoch and at this slot within it.
    Relative(u64, u64),
    /// A block of a later era, at this absolute slot.
    Absolute(u64),
}

/// What the worker reads from a decoded header: where the block sits and the
/// digest of the header.
#[derive(Clone, Copy, Debug, PartialEq, Eq)]
pub struct DecodedHeader {
    pub position: Position,
    pub hash: BlockHash,
}

/// The error type of `pallas::ledger::traverse`, which the decoder returns:
/// carried through as it is, nothing is said of what it holds.
#[verifier::external_type_specification]
#[verifier::external_body]
pub struct ExTraverseError(pallas::ledger::traverse::Error);

/// Result of decoding `cbor` as a header of era `variant`, with the subtag of
/// the first era's prefix if there is one; `None` where the bytes are no such
/// header.
pub uninterp spec fn header_decoding(variant: u8, subtag: Option<u8>, cbor: Seq<u8>) -> Option<
    DecodedHeader,
>;

/// Calls `MultiEraHeader::decode` and copies out of the header the fields
/// that place its block, beside the digest that `MultiEraHeader::hash` gives
/// for it. Trusted: whether the bytes decode, and what is then copied out,
/// depends on the three arguments alone.
#[verifier::external_body]
fn decode_header(variant: u8, subtag: Option<u8>, cbor: &[u8]) -> (decoded: Result<
    DecodedHeader,
    pallas::ledger::traverse::Error,
>)
    ensures
        decoded is Ok <==> header_decoding(variant, subtag, cbor@) is Some,
        decoded matches Ok(header) ==> header_decoding(variant, subtag, cbor@) == Some(header),
{
    let header = MultiEraHeader::decode(variant, subtag, cbor)?;
    let hash = *header.hash();
    let position = match header {
        MultiEraHeader::EpochBoundary(x) => Position::Boundary(x.consensus_data.epoch_id),
        MultiEraHeader::Byron(x) => {
            Position::Relative(x.consensus_data.0.epoch, x.consensus_data.0.slot)
        },
        MultiEraHeader::AlonzoCompatible(x) => Position::Absolute(x.header_body.slot),
        MultiEraHeader::Babbage(x) => Position::Absolute(x.header_body.slot),
    };
    Ok(DecodedHeader { position, hash })
}

/// Length of an epoch of the first era on the main network, in seconds.
pub const BYRON_EPOCH_LENGTH: u64 = 432000;

/// Length of a slot of the first era on the main network, in seconds.
pub const BYRON_SLOT_LENGTH: u64 = 20;

/// Length of an epoch of the later eras on the main network, in slots of one
/// second.
pub const SHELLEY_EPOCH_LENGTH: u64 = 432000;

/// First epoch of the later eras on the main network.
pub const SHELLEY_START_EPOCH: u64 = 208;

/// Absolute slot of the slot `slot` of epoch `epoch`, on the main network:
/// the slots of the epochs before it, each as long as its era makes it, and
/// then `slot`.
pub open spec fn absolute_slot(epoch: u64, slot: u64) -> int {
    if epoch < SHELLEY_START_EPOCH {
        (epoch * BYRON_EPOCH_LENGTH) / (BYRON_SLOT_LENGTH as int) + slot
    } else {
        (SHELLEY_START_EPOCH * BYRON_EPOCH_LENGTH) / (BYRON_SLOT_LENGTH as int) + (epoch
            - SHELLEY_START_EPOCH) * SHELLEY_EPOCH_LENGTH + slot
    }
}

/// Calls `GenesisValues::relative_slot_to_absolute` on the main network's
/// values. Trusted: the sum written out in [`absolute_slot`], which the
/// outside function computes in `u64`; the `requires` keeps it in range.
#[verifier::external_body]
fn relative_slot_to_absolute(epoch: u64, slot: u64) -> (absolute: u64)
    requires
        absolute_slot(epoch, slot) <= u64::MAX,
    ensures
        absolute == absolute_slot(epoch, slot),
{
    GenesisValues::default().relative_slot_to_absolute(epoch, slot)
}

impl DecodedHeader {
    /// The digest of the header.
    pub open spec fn spec_hash(&self) -> BlockHash {
        self.hash
    }

    /// The absolute slot of the block, as a number without bound: a boundary
    /// block sits on the first slot of its epoch.
    pub open spec fn slot_number(&self) -> int {
        match self.position {
            Position::Boundary(epoch) => absolute_slot(epoch, 0),
            Position::Relative(epoch, slot) => absolute_slot(epoch, slot),
            Position::Absolute(slot) => slot as int,
        }
    }

    /// The absolute slot of the block, where 64 bits hold it.
    pub open spec fn spec_slot(&self) -> Option<u64> {
        if self.slot_number() <= u64::MAX {
            Some(self.slot_number() as u64)
        } else {
            None
        }
    }

    /// The position of the block, where 64 bits hold its slot.
    pub open spec fn spec_point(&self) -> Option<Point> {
        match self.spec_slot() {
            Some(slot) => Some(Point::Specific(slot, self.spec_hash())),
            None => None,
        }
    }

    /// The digest of the header.
    #[verifier::when_used_as_spec(spec_hash)]
    pub fn hash(&self) -> (hash: BlockHash)
        ensures
            hash == self.spec_hash(),
    {
        self.hash
    }

    /// The absolute slot of the block, or `None` where the epoch and slot
    /// that the header names lie beyond what 64 bits hold.
    #[verifier::when_used_as_spec(spec_slot)]
    pub fn slot(&self) -> (slot: Option<u64>)
        ensures
            slot == self.spec_slot(),
    {
        match self.position {
            Position::Boundary(epoch) => absolute(epoch, 0),
            Position::Relative(epoch, slot) => absolute(epoch, slot),
            Position::Absolute(slot) => Some(slot),
        }
    }

    /// The position of the block, or `None` where its slot is out of range.
    #[verifier::when_used_as_spec(spec_point)]
    pub fn point(&self) -> (point: Option<Point>)
        ensures
            point == self.spec_point(),
    {
        match self.slot() {
            Some(slot) => Some(Point::Specific(slot, self.hash())),
            None => None,
        }
    }
}

/// The absolute slot of the slot `slot` of epoch `epoch`, or `None` where 64
/// bits do not hold it.
pub fn absolute(epoch: u64, slot: u64) -> (out: Option<u64>)
    ensures
        absolute_slot(epoch, slot) <= u64::MAX ==> out == Some(absolute_slot(epoch, slot) as u64),
        absolute_slot(epoch, slot) > u64::MAX ==> out is None,
{
    let first: u64 = if epoch < SHELLEY_START_EPOCH {
        epoch * BYRON_EPOCH_LENGTH / BYRON_SLOT_LENGTH
    } else {
        let past: u64 = epoch - SHELLEY_START_EPOCH;
        let start: u64 = SHELLEY_START_EPOCH * BYRON_EPOCH_LENGTH / BYRON_SLOT_LENGTH;
        if past > (u64::MAX - start) / SHELLEY_EPOCH_LENGTH {
            return None;
        }
        start + past * SHELLEY_EPOCH_LENGTH
    };
    if slot > u64::MAX - first {
        return None;
    }
    Some(relative_slot_to_absolute(epoch, slot))
}

/// What decoding the header yields: the outcome of the decoder on the
/// variant, the subtag of the prefix if there is one, and the bytes.
pub open spec fn spec_to_traverse(header: HeaderContentView) -> Option<DecodedHeader> {
    match header.byron_prefix {
        Some((subtag, _)) => header_decoding(header.variant, Some(subtag), header.cbor),
        None => header_decoding(header.variant, None, header.cbor),
    }
}

/// Decodes a header received from the peer. A header that does not decode is
/// malformed data: that is unrecoverable for the worker.
pub fn to_traverse(header: &HeaderContent) -> (out: Result<DecodedHeader, WorkerError>)
    ensures
        spec_to_traverse(header@) matches Some(decoded) ==> out == Ok::<DecodedHeader, WorkerError>(
            decoded,
        ),
        spec_to_traverse(header@) is None ==> out == Err::<DecodedHeader, WorkerError>(
            WorkerError::Panic,
        ),
{
    let out = match header.byron_prefix {
        Some((subtag, _)) => decode_header(header.variant, Some(subtag), header.cbor.as_slice()),
        None => decode_header(header.variant, None, header.cbor.as_slice()),
    };
    match out {
        Ok(decoded) => Ok(decoded),
        Err(_) => Err(policy(Operation::HeaderDecode)),
    }
}

} // verus!
