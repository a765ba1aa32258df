//! Sector and block arithmetic on raw numbers.
use vstd::prelude::*;

use crate::mifare_classic_error::MifareClassicError;

verus! {

/// Whether `sector`/`offset` names a block: sectors 0–31 hold four blocks, sectors 32–39 hold
/// sixteen.
pub open spec fn valid_sector_offset(sector: int, offset: int) -> bool {
    ||| 0 <= sector <= 31 && 0 <= offset <= 3
    ||| 32 <= sector <= 39 && 0 <= offset <= 15
}

/// The physical block at `offset` within `sector`.
pub open spec fn block_index(sector: int, offset: int) -> int {
    if sector <= 31 {
        sector * 4 + offset
    } else {
        (sector - 32) * 16 + 128 + offset
    }
}

/// The sector that holds physical block `block` (0–255).
pub open spec fn sector_index(block: int) -> int {
    if block < 128 {
        block / 4
    } else {
        (block - 128) / 16 + 32
    }
}

/// Every block of a sector lies in that sector.
pub proof fn lemma_sector_of_block(sector: int, offset: int)
    requires
        valid_sector_offset(sector, offset),
    ensures
        0 <= block_index(sector, offset) <= 255,
        sector_index(block_index(sector, offset)) == sector,
{
}

/// Which MIFARE Classic key to use for authentication.
#[derive(Debug, Clone, Copy)]
pub enum MifareClassicKeyType {
    KeyA,
    KeyB,
}

/// Authentication against a MIFARE Classic tag addressed by raw sector numbers.
pub trait MifareClassic {
    /// Authenticate to a specific block using Key A or B.
    fn authenticate(&mut self, sector: u8, key: [u8; 6], key_type: MifareClassicKeyType) -> Result<
        (),
        MifareClassicError,
    >;
}

/// The first block of `sector`, or `None` when the sector does not exist.
pub fn sector_to_block(sector: u8) -> (r: Option<u8>)
    ensures
        r == (if sector <= 39 {
            Some(block_index(sector as int, 0) as u8)
        } else {
            None::<u8>
        }),
{
    sector_offset_to_block(sector, 0)
}

/// The block at `block_offset` within `sector`, or `None` when the pair names no block.
pub fn sector_offset_to_block(sector: u8, block_offset: u8) -> (r: Option<u8>)
    ensures
        r == (if valid_sector_offset(sector as int, block_offset as int) {
            Some(block_index(sector as int, block_offset as int) as u8)
        } else {
            None::<u8>
        }),
{
    if sector <= 31 {
        if block_offset <= 3 {
            Some(sector * 4 + block_offset)
        } else {
            None
        }
    } else if sector <= 39 {
        if block_offset <= 15 {
            // Sectors from 32 on hold sixteen blocks each.
            Some((sector - 32) * 16 + 128 + block_offset)
        } else {
            None
        }
    } else {
        None
    }
}

/// The sector that holds `block`.
pub fn block_to_sector(block: u8) -> (r: u8)
    ensures
        r == sector_index(block as int),
        r <= 39,
{
    if block < 128 {
        block / 4
    } else {
        ((block - 128) / 16) + 32
    }
}

} // verus!
