//! Physical blocks, and the offsets of blocks within a sector.
use vstd::prelude::*;

use crate::mifare::sector::{FourBlockSector, Sector, SixteenBlockSector};
use crate::mifare::tag::Error;
use crate::mifare_classic::{block_index, sector_index};

verus! {

/// Offset of a block within a four-block sector.
#[derive(Debug, Copy, Clone, PartialEq, Eq, Structural)]
pub enum FourBlockOffset {
    B0,
    B1,
    B2,
    B3,
}

impl FourBlockOffset {
    /// The number this value stands for.
    pub open spec fn value(self) -> u8 {
        match self {
            FourBlockOffset::B0 => 0u8,
            FourBlockOffset::B1 => 1u8,
            FourBlockOffset::B2 => 2u8,
            FourBlockOffset::B3 => 3u8,
        }
    }

    /// The number this value stands for.
    pub fn to_u8(&self) -> (r: u8)
        ensures
            r == self.value(),
    {
        match *self {
            FourBlockOffset::B0 => 0,
            FourBlockOffset::B1 => 1,
            FourBlockOffset::B2 => 2,
            FourBlockOffset::B3 => 3,
        }
    }

    /// The value standing for `n`, which must lie in 0..=3.
    pub(crate) fn from_u8(n: u8) -> (r: Self)
        requires
            n <= 3,
        ensures
            r.value() == n,
    {
        match n {
            0 => FourBlockOffset::B0,
            1 => FourBlockOffset::B1,
            2 => FourBlockOffset::B2,
            3 => FourBlockOffset::B3,
            _ => FourBlockOffset::B3,
        }
    }

    /// Converts `n` when it lies in 0..=3.
    pub fn try_from(n: u8) -> (r: Result<Self, Error>)
        ensures
            n <= 3 ==> (r matches Ok(x) && x.value() == n),
            !(n <= 3) ==> r == Err::<Self, Error>(Error::InvalidBlock(n)),
    {
        if n <= 3 {
            Ok(Self::from_u8(n))
        } else {
            Err(Error::InvalidBlock(n))
        }
    }

    /// Every value, in increasing order.
    pub fn iter() -> (r: Vec<Self>)
        ensures
            r@.len() == 4,
            forall|i: int| 0 <= i < r@.len() ==> (#[trigger] r@[i]).value() == i,
    {
        let mut v: Vec<Self> = Vec::new();
        v.push(FourBlockOffset::B0);
        v.push(FourBlockOffset::B1);
        v.push(FourBlockOffset::B2);
        v.push(FourBlockOffset::B3);
        v
    }
}

/// Offset of a block within a sixteen-block sector.
#[derive(Debug, Copy, Clone, PartialEq, Eq, Structural)]
pub enum SixteenBlockOffset {
    B0,
    B1,
    B2,
    B3,
    B4,
    B5,
    B6,
    B7,
    B8,
    B9,
    B10,
    B11,
    B12,
    B13,
    B14,
    B15,
}

impl SixteenBlockOffset {
    /// The number this value stands for.
    pub open spec fn value(self) -> u8 {
        match self {
            SixteenBlockOffset::B0 => 0u8,
            SixteenBlockOffset::B1 => 1u8,
            SixteenBlockOffset::B2 => 2u8,
            SixteenBlockOffset::B3 => 3u8,
            SixteenBlockOffset::B4 => 4u8,
            SixteenBlockOffset::B5 => 5u8,
            SixteenBlockOffset::B6 => 6u8,
            SixteenBlockOffset::B7 => 7u8,
            SixteenBlockOffset::B8 => 8u8,
            SixteenBlockOffset::B9 => 9u8,
            SixteenBlockOffset::B10 => 10u8,
            SixteenBlockOffset::B11 => 11u8,
            SixteenBlockOffset::B12 => 12u8,
            SixteenBlockOffset::B13 => 13u8,
            SixteenBlockOffset::B14 => 14u8,
            SixteenBlockOffset::B15 => 15u8,
        }
    }

    /// The number this value stands for.
    pub fn to_u8(&self) -> (r: u8)
        ensures
            r == self.value(),
    {
        match *self {
            SixteenBlockOffset::B0 => 0,
            SixteenBlockOffset::B1 => 1,
            SixteenBlockOffset::B2 => 2,
            SixteenBlockOffset::B3 => 3,
            SixteenBlockOffset::B4 => 4,
            SixteenBlockOffset::B5 => 5,
            SixteenBlockOffset::B6 => 6,
            SixteenBlockOffset::B7 => 7,
            SixteenBlockOffset::B8 => 8,
            SixteenBlockOffset::B9 => 9,
            SixteenBlockOffset::B10 => 10,
            SixteenBlockOffset::B11 => 11,
            SixteenBlockOffset::B12 => 12,
            SixteenBlockOffset::B13 => 13,
            SixteenBlockOffset::B14 => 14,
            SixteenBlockOffset::B15 => 15,
        }
    }

    /// The value standing for `n`, which must lie in 0..=15.
    pub(crate) fn from_u8(n: u8) -> (r: Self)
        requires
            n <= 15,
        ensures
            r.value() == n,
    {
        match n {
            0 => SixteenBlockOffset::B0,
            1 => SixteenBlockOffset::B1,
            2 => SixteenBlockOffset::B2,
            3 => SixteenBlockOffset::B3,
            4 => SixteenBlockOffset::B4,
            5 => SixteenBlockOffset::B5,
            6 => SixteenBlockOffset::B6,
            7 => SixteenBlockOffset::B7,
            8 => SixteenBlockOffset::B8,
            9 => SixteenBlockOffset::B9,
            10 => SixteenBlockOffset::B10,
            11 => SixteenBlockOffset::B11,
            12 => SixteenBlockOffset::B12,
            13 => SixteenBlockOffset::B13,
            14 => SixteenBlockOffset::B14,
            15 => SixteenBlockOffset::B15,
            _ => SixteenBlockOffset::B15,
        }
    }

    /// Converts `n` when it lies in 0..=15.
    pub fn try_from(n: u8) -> (r: Result<Self, Error>)
        ensures
            n <= 15 ==> (r matches Ok(x) && x.value() == n),
            !(n <= 15) ==> r == Err::<Self, Error>(Error::InvalidBlock(n)),
    {
        if n <= 15 {
            Ok(Self::from_u8(n))
        } else {
            Err(Error::InvalidBlock(n))
        }
    }

    /// Every value, in increasing order.
    pub fn iter() -> (r: Vec<Self>)
        ensures
            r@.len() == 16,
            forall|i: int| 0 <= i < r@.len() ==> (#[trigger] r@[i]).value() == i,
    {
        let mut v: Vec<Self> = Vec::new();
        v.push(SixteenBlockOffset::B0);
        v.push(SixteenBlockOffset::B1);
        v.push(SixteenBlockOffset::B2);
        v.push(SixteenBlockOffset::B3);
        v.push(SixteenBlockOffset::B4);
        v.push(SixteenBlockOffset::B5);
        v.push(SixteenBlockOffset::B6);
        v.push(SixteenBlockOffset::B7);
        v.push(SixteenBlockOffset::B8);
        v.push(SixteenBlockOffset::B9);
        v.push(SixteenBlockOffset::B10);
        v.push(SixteenBlockOffset::B11);
        v.push(SixteenBlockOffset::B12);
        v.push(SixteenBlockOffset::B13);
        v.push(SixteenBlockOffset::B14);
        v.push(SixteenBlockOffset::B15);
        v
    }
}

/// A MIFARE Classic block, 0 to 255: every byte value names a block.
#[derive(Debug, Copy, Clone, PartialEq, Eq, Structural)]
pub struct Block(u8);

impl Block {
    /// The block number.
    pub closed spec fn index(self) -> u8 {
        self.0
    }

    /// The block number.
    pub fn to_u8(&self) -> (r: u8)
        ensures
            r == self.index(),
    {
        self.0
    }

    /// The block at `offset` within a four-block sector.
    pub fn from_four_block_sector(sector: FourBlockSector, offset: FourBlockOffset) -> (r: Block)
        ensures
            r.index() == sector.value() * 4 + offset.value(),
            r.index() == block_index(sector.value() as int, offset.value() as int),
    {
        let sector = sector.to_u8();
        let offset = offset.to_u8();
        Block(sector * 4 + offset)
    }

    /// The block at `offset` within a sixteen-block sector.
    pub fn from_sixteen_block_sector(sector: SixteenBlockSector, offset: SixteenBlockOffset) -> (r:
        Block)
        ensures
            r.index() == (sector.value() - 32) * 16 + 128 + offset.value(),
            r.index() == block_index(sector.value() as int, offset.value() as int),
    {
        let sector = sector.to_u8();
        let offset = offset.to_u8();
        Block((sector - 32) * 16 + 128 + offset)
    }

    /// The sector that holds this block.
    pub fn sector(&self) -> (r: Sector)
        ensures
            r.value() == sector_index(self.index() as int),
    {
        let block = self.0;
        if block < 128 {
            Sector::FourBlock(FourBlockSector::from_u8(block / 4))
        } else {
            Sector::SixteenBlock(SixteenBlockSector::from_u8((block - 128) / 16 + 32))
        }
    }
}

impl From<Block> for u8 {
    fn from(value: Block) -> u8 {
        value.0
    }
}

impl vstd::std_specs::convert::FromSpecImpl<Block> for u8 {
    open spec fn obeys_from_spec() -> bool {
        true
    }

    open spec fn from_spec(v: Block) -> u8 {
        v.index()
    }
}

impl From<u8> for Block {
    fn from(value: u8) -> Block {
        Block(value)
    }
}

impl vstd::std_specs::convert::FromSpecImpl<u8> for Block {
    open spec fn obeys_from_spec() -> bool {
        true
    }

    open spec fn from_spec(v: u8) -> Block {
        Block::from_index(v)
    }
}

impl Block {
    /// The block numbered `v`.
    pub closed spec fn from_index(v: u8) -> Block {
        Block(v)
    }

    /// The block made from number `v` has number `v`.
    pub proof fn lemma_from_index(v: u8)
        ensures
            #[trigger] Block::from_index(v).index() == v,
    {
    }
}

impl From<Sector> for Block {
    /// The first block of a sector.
    fn from(sector: Sector) -> Block {
        match sector {
            Sector::FourBlock(s) => Block::from_four_block_sector(s, FourBlockOffset::B0),
            Sector::SixteenBlock(s) => Block::from_sixteen_block_sector(s, SixteenBlockOffset::B0),
        }
    }
}

impl vstd::std_specs::convert::FromSpecImpl<Sector> for Block {
    open spec fn obeys_from_spec() -> bool {
        true
    }

    open spec fn from_spec(v: Sector) -> Block {
        Block::from_index(block_index(v.value() as int, 0) as u8)
    }
}

} // verus!
