//! Sectors and blocks as checked numbers, with the raw-number tag interface.
use vstd::prelude::*;

use crate::mifare_classic::{block_index, sector_index};

verus! {

/// A MIFARE Classic sector number, 0 to 39.
#[derive(Debug, Copy, Clone, PartialEq, Eq, Structural)]
pub struct MifareClassicSector(u8);

impl MifareClassicSector {
    #[verifier::type_invariant]
    spec fn inv(self) -> bool {
        self.0 <= 39
    }

    /// The sector number.
    pub closed spec fn value(self) -> u8 {
        self.0
    }

    /// The sector numbered `v`.
    pub closed spec fn from_value(v: u8) -> MifareClassicSector {
        MifareClassicSector(v)
    }

    /// The sector made from number `v` has number `v`.
    pub proof fn lemma_from_value(v: u8)
        ensures
            #[trigger] MifareClassicSector::from_value(v).value() == v,
    {
    }

    /// The sector number, at most 39.
    pub fn to_u8(&self) -> (r: u8)
        ensures
            r == self.value(),
            r <= 39,
    {
        proof {
            use_type_invariant(self);
        }
        self.0
    }

    /// The sector numbered `value`; sectors are numbered 0 to 39.
    pub fn try_from(value: u8) -> (r: Result<MifareClassicSector, MifareClassicError>)
        ensures
            value <= 39 ==> (r matches Ok(s) && s.value() == value),
            value > 39 ==> (r matches Err(MifareClassicError::InvalidSector(v)) && v == value),
    {
        if value <= 39 {
            Ok(MifareClassicSector(value))
        } else {
            Err(MifareClassicError::InvalidSector(value))
        }
    }
}

impl From<MifareClassicSector> for u8 {
    fn from(value: MifareClassicSector) -> u8 {
        value.to_u8()
    }
}

impl vstd::std_specs::convert::FromSpecImpl<MifareClassicSector> for u8 {
    open spec fn obeys_from_spec() -> bool {
        true
    }

    open spec fn from_spec(v: MifareClassicSector) -> u8 {
        v.value()
    }
}

/// A MIFARE Classic block number, 0 to 255.
#[derive(Debug, Copy, Clone, PartialEq, Eq, Structural)]
pub struct MifareClassicBlock(u8);

impl MifareClassicBlock {
    /// The block number.
    pub closed spec fn value(self) -> u8 {
        self.0
    }

    /// The block numbered `v`.
    pub closed spec fn from_value(v: u8) -> MifareClassicBlock {
        MifareClassicBlock(v)
    }

    /// The block made from number `v` has number `v`.
    pub proof fn lemma_from_value(v: u8)
        ensures
            #[trigger] MifareClassicBlock::from_value(v).value() == v,
    {
    }

    /// The first block of `sector`.
    pub fn first_of(sector: MifareClassicSector) -> (r: MifareClassicBlock)
        ensures
            r.value() == block_index(sector.value() as int, 0),
    {
        let sector = sector.to_u8();
        if sector <= 31 {
            MifareClassicBlock(sector * 4)
        } else {
            MifareClassicBlock((sector - 32) * 16 + 128)
        }
    }

    /// The sector that holds this block.
    pub fn sector(&self) -> (r: MifareClassicSector)
        ensures
            r.value() == sector_index(self.value() as int),
    {
        let block = self.0;
        if block <= 127 {
            MifareClassicSector(block / 4)
        } else {
            MifareClassicSector((block - 128) / 16 + 32)
        }
    }
}

impl From<MifareClassicBlock> for u8 {
    fn from(value: MifareClassicBlock) -> u8 {
        value.0
    }
}

impl vstd::std_specs::convert::FromSpecImpl<MifareClassicBlock> for u8 {
    open spec fn obeys_from_spec() -> bool {
        true
    }

    open spec fn from_spec(v: MifareClassicBlock) -> u8 {
        v.value()
    }
}

impl From<u8> for MifareClassicBlock {
    fn from(value: u8) -> MifareClassicBlock {
        MifareClassicBlock(value)
    }
}

impl vstd::std_specs::convert::FromSpecImpl<u8> for MifareClassicBlock {
    open spec fn obeys_from_spec() -> bool {
        true
    }

    open spec fn from_spec(v: u8) -> MifareClassicBlock {
        MifareClassicBlock::from_value(v)
    }
}

impl From<MifareClassicSector> for MifareClassicBlock {
    /// The first block of a sector.
    fn from(value: MifareClassicSector) -> MifareClassicBlock {
        MifareClassicBlock::first_of(value)
    }
}

impl vstd::std_specs::convert::FromSpecImpl<MifareClassicSector> for MifareClassicBlock {
    open spec fn obeys_from_spec() -> bool {
        true
    }

    open spec fn from_spec(v: MifareClassicSector) -> MifareClassicBlock {
        MifareClassicBlock::from_value(block_index(v.value() as int, 0) as u8)
    }
}

impl From<MifareClassicBlock> for MifareClassicSector {
    /// The sector that holds a block.
    fn from(value: MifareClassicBlock) -> MifareClassicSector {
        value.sector()
    }
}

impl vstd::std_specs::convert::FromSpecImpl<MifareClassicBlock> for MifareClassicSector {
    open spec fn obeys_from_spec() -> bool {
        true
    }

    open spec fn from_spec(v: MifareClassicBlock) -> MifareClassicSector {
        MifareClassicSector::from_value(sector_index(v.value() as int) as u8)
    }
}

/// Which MIFARE Classic key to use for authentication.
#[derive(Debug, Clone, Copy)]
pub enum MifareClassicKeyType {
    KeyA,
    KeyB,
}

/// Basic operations on a MIFARE Classic tag addressed by raw sector numbers.
pub trait MifareClassic {
    /// Authenticate to a specific sector on the tag using key A or B.
    fn authenticate(&mut self, sector: u8, key: [u8; 6], key_type: MifareClassicKeyType) -> Result<
        (),
        MifareClassicError,
    >;

    /// Reads a 16-byte data block from the tag.
    fn read_block(&mut self, block: MifareClassicBlock) -> Result<[u8; 16], MifareClassicError>;

    /// Writes a 16-byte data block to the tag.
    fn write_block(&mut self, block: MifareClassicBlock, data: [u8; 16]) -> Result<
        (),
        MifareClassicError,
    >;
}

/// Errors of MIFARE Classic operations.
#[derive(Debug)]
pub enum MifareClassicError {
    /// Failed to authenticate to a sector.
    AuthenticationFailed { block: u8 },
    /// Invalid value for a MIFARE classic sector.
    InvalidSector(u8),
    /// Low-level PCSC or transport error.
    TransportError(String),
}

/// Provides authentication to MIFARE Classic sectors, hiding where the keys come from.
pub trait MifareClassicKeyProvider {
    fn authenticate<T: MifareClassic>(tag: T, sector: MifareClassicSector);
}

/// The sector of the block made from byte `b` is the sector that holds block `b`.
pub proof fn lemma_sector_of_raw_block(b: u8)
    ensures
        MifareClassicSector::from_value(
            sector_index(MifareClassicBlock::from_value(b).value() as int) as u8,
        ).value() == sector_index(b as int),
        sector_index(b as int) <= 39,
{
}

} // verus!
