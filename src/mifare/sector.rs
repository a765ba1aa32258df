//! MIFARE Classic sectors: 32 sectors of four blocks, then 8 sectors of sixteen blocks.
use vstd::prelude::*;

use crate::mifare::block::{Block, FourBlockOffset, SixteenBlockOffset};
use crate::mifare::tag::Error;
use crate::mifare_classic::{block_index, sector_index, valid_sector_offset};

verus! {

/// A MIFARE Classic sector of four blocks, 0 to 31.
#[derive(Debug, Copy, Clone, PartialEq, Eq, Structural, PartialOrd, Ord, Hash)]
pub enum FourBlockSector {
    S0,
    S1,
    S2,
    S3,
    S4,
    S5,
    S6,
    S7,
    S8,
    S9,
    S10,
    S11,
    S12,
    S13,
    S14,
    S15,
    S16,
    S17,
    S18,
    S19,
    S20,
    S21,
    S22,
    S23,
    S24,
    S25,
    S26,
    S27,
    S28,
    S29,
    S30,
    S31,
}

impl FourBlockSector {
    /// The number this value stands for.
    pub open spec fn value(self) -> u8 {
        match self {
            FourBlockSector::S0 => 0u8,
            FourBlockSector::S1 => 1u8,
            FourBlockSector::S2 => 2u8,
            FourBlockSector::S3 => 3u8,
            FourBlockSector::S4 => 4u8,
            FourBlockSector::S5 => 5u8,
            FourBlockSector::S6 => 6u8,
            FourBlockSector::S7 => 7u8,
            FourBlockSector::S8 => 8u8,
            FourBlockSector::S9 => 9u8,
            FourBlockSector::S10 => 10u8,
            FourBlockSector::S11 => 11u8,
            FourBlockSector::S12 => 12u8,
            FourBlockSector::S13 => 13u8,
            FourBlockSector::S14 => 14u8,
            FourBlockSector::S15 => 15u8,
            FourBlockSector::S16 => 16u8,
            FourBlockSector::S17 => 17u8,
            FourBlockSector::S18 => 18u8,
            FourBlockSector::S19 => 19u8,
            FourBlockSector::S20 => 20u8,
            FourBlockSector::S21 => 21u8,
            FourBlockSector::S22 => 22u8,
            FourBlockSector::S23 => 23u8,
            FourBlockSector::S24 => 24u8,
            FourBlockSector::S25 => 25u8,
            FourBlockSector::S26 => 26u8,
            FourBlockSector::S27 => 27u8,
            FourBlockSector::S28 => 28u8,
            FourBlockSector::S29 => 29u8,
            FourBlockSector::S30 => 30u8,
            FourBlockSector::S31 => 31u8,
        }
    }

    /// The number this value stands for.
    pub fn to_u8(&self) -> (r: u8)
        ensures
            r == self.value(),
    {
        match *self {
            FourBlockSector::S0 => 0,
            FourBlockSector::S1 => 1,
            FourBlockSector::S2 => 2,
            FourBlockSector::S3 => 3,
            FourBlockSector::S4 => 4,
            FourBlockSector::S5 => 5,
            FourBlockSector::S6 => 6,
            FourBlockSector::S7 => 7,
            FourBlockSector::S8 => 8,
            FourBlockSector::S9 => 9,
            FourBlockSector::S10 => 10,
            FourBlockSector::S11 => 11,
            FourBlockSector::S12 => 12,
            FourBlockSector::S13 => 13,
            FourBlockSector::S14 => 14,
            FourBlockSector::S15 => 15,
            FourBlockSector::S16 => 16,
            FourBlockSector::S17 => 17,
            FourBlockSector::S18 => 18,
            FourBlockSector::S19 => 19,
            FourBlockSector::S20 => 20,
            FourBlockSector::S21 => 21,
            FourBlockSector::S22 => 22,
            FourBlockSector::S23 => 23,
            FourBlockSector::S24 => 24,
            FourBlockSector::S25 => 25,
            FourBlockSector::S26 => 26,
            FourBlockSector::S27 => 27,
            FourBlockSector::S28 => 28,
            FourBlockSector::S29 => 29,
            FourBlockSector::S30 => 30,
            FourBlockSector::S31 => 31,
        }
    }

    /// The value standing for `n`, which must lie in 0..=31.
    pub(crate) fn from_u8(n: u8) -> (r: Self)
        requires
            n <= 31,
        ensures
            r.value() == n,
    {
        match n {
            0 => FourBlockSector::S0,
            1 => FourBlockSector::S1,
            2 => FourBlockSector::S2,
            3 => FourBlockSector::S3,
            4 => FourBlockSector::S4,
            5 => FourBlockSector::S5,
            6 => FourBlockSector::S6,
            7 => FourBlockSector::S7,
            8 => FourBlockSector::S8,
            9 => FourBlockSector::S9,
            10 => FourBlockSector::S10,
            11 => FourBlockSector::S11,
            12 => FourBlockSector::S12,
            13 => FourBlockSector::S13,
            14 => FourBlockSector::S14,
            15 => FourBlockSector::S15,
            16 => FourBlockSector::S16,
            17 => FourBlockSector::S17,
            18 => FourBlockSector::S18,
            19 => FourBlockSector::S19,
            20 => FourBlockSector::S20,
            21 => FourBlockSector::S21,
            22 => FourBlockSector::S22,
            23 => FourBlockSector::S23,
            24 => FourBlockSector::S24,
            25 => FourBlockSector::S25,
            26 => FourBlockSector::S26,
            27 => FourBlockSector::S27,
            28 => FourBlockSector::S28,
            29 => FourBlockSector::S29,
            30 => FourBlockSector::S30,
            31 => FourBlockSector::S31,
            _ => FourBlockSector::S31,
        }
    }

    /// Converts `n` when it lies in 0..=31.
    pub fn try_from(n: u8) -> (r: Result<Self, Error>)
        ensures
            n <= 31 ==> (r matches Ok(x) && x.value() == n),
            !(n <= 31) ==> r == Err::<Self, Error>(Error::InvalidSector(n)),
    {
        if n <= 31 {
            Ok(Self::from_u8(n))
        } else {
            Err(Error::InvalidSector(n))
        }
    }

    /// Every value, in increasing order.
    pub fn iter() -> (r: Vec<Self>)
        ensures
            r@.len() == 32,
            forall|i: int| 0 <= i < r@.len() ==> (#[trigger] r@[i]).value() == i,
    {
        let mut v: Vec<Self> = Vec::new();
        v.push(FourBlockSector::S0);
        v.push(FourBlockSector::S1);
        v.push(FourBlockSector::S2);
        v.push(FourBlockSector::S3);
        v.push(FourBlockSector::S4);
        v.push(FourBlockSector::S5);
        v.push(FourBlockSector::S6);
        v.push(FourBlockSector::S7);
        v.push(FourBlockSector::S8);
        v.push(FourBlockSector::S9);
        v.push(FourBlockSector::S10);
        v.push(FourBlockSector::S11);
        v.push(FourBlockSector::S12);
        v.push(FourBlockSector::S13);
        v.push(FourBlockSector::S14);
        v.push(FourBlockSector::S15);
        v.push(FourBlockSector::S16);
        v.push(FourBlockSector::S17);
        v.push(FourBlockSector::S18);
        v.push(FourBlockSector::S19);
        v.push(FourBlockSector::S20);
        v.push(FourBlockSector::S21);
        v.push(FourBlockSector::S22);
        v.push(FourBlockSector::S23);
        v.push(FourBlockSector::S24);
        v.push(FourBlockSector::S25);
        v.push(FourBlockSector::S26);
        v.push(FourBlockSector::S27);
        v.push(FourBlockSector::S28);
        v.push(FourBlockSector::S29);
        v.push(FourBlockSector::S30);
        v.push(FourBlockSector::S31);
        v
    }
}

/// A MIFARE Classic sector of sixteen blocks, 32 to 39.
#[derive(Debug, Copy, Clone, PartialEq, Eq, Structural, PartialOrd, Ord, Hash)]
pub enum SixteenBlockSector {
    S32,
    S33,
    S34,
    S35,
    S36,
    S37,
    S38,
    S39,
}

impl SixteenBlockSector {
    /// The number this value stands for.
    pub open spec fn value(self) -> u8 {
        match self {
            SixteenBlockSector::S32 => 32u8,
            SixteenBlockSector::S33 => 33u8,
            SixteenBlockSector::S34 => 34u8,
            SixteenBlockSector::S35 => 35u8,
            SixteenBlockSector::S36 => 36u8,
            SixteenBlockSector::S37 => 37u8,
            SixteenBlockSector::S38 => 38u8,
            SixteenBlockSector::S39 => 39u8,
        }
    }

    /// The number this value stands for.
    pub fn to_u8(&self) -> (r: u8)
        ensures
            r == self.value(),
    {
        match *self {
            SixteenBlockSector::S32 => 32,
            SixteenBlockSector::S33 => 33,
            SixteenBlockSector::S34 => 34,
            SixteenBlockSector::S35 => 35,
            SixteenBlockSector::S36 => 36,
            SixteenBlockSector::S37 => 37,
            SixteenBlockSector::S38 => 38,
            SixteenBlockSector::S39 => 39,
        }
    }

    /// The value standing for `n`, which must lie in 32..=39.
    pub(crate) fn from_u8(n: u8) -> (r: Self)
        requires
            32 <= n <= 39,
        ensures
            r.value() == n,
    {
        match n {
            32 => SixteenBlockSector::S32,
            33 => SixteenBlockSector::S33,
            34 => SixteenBlockSector::S34,
            35 => SixteenBlockSector::S35,
            36 => SixteenBlockSector::S36,
            37 => SixteenBlockSector::S37,
            38 => SixteenBlockSector::S38,
            39 => SixteenBlockSector::S39,
            _ => SixteenBlockSector::S39,
        }
    }

    /// Converts `n` when it lies in 32..=39.
    pub fn try_from(n: u8) -> (r: Result<Self, Error>)
        ensures
            32 <= n <= 39 ==> (r matches Ok(x) && x.value() == n),
            !(32 <= n <= 39) ==> r == Err::<Self, Error>(Error::InvalidSector(n)),
    {
        if 32 <= n && n <= 39 {
            Ok(Self::from_u8(n))
        } else {
            Err(Error::InvalidSector(n))
        }
    }

    /// Every value, in increasing order.
    pub fn iter() -> (r: Vec<Self>)
        ensures
            r@.len() == 8,
            forall|i: int| 0 <= i < r@.len() ==> (#[trigger] r@[i]).value() == 32 + i,
    {
        let mut v: Vec<Self> = Vec::new();
        v.push(SixteenBlockSector::S32);
        v.push(SixteenBlockSector::S33);
        v.push(SixteenBlockSector::S34);
        v.push(SixteenBlockSector::S35);
        v.push(SixteenBlockSector::S36);
        v.push(SixteenBlockSector::S37);
        v.push(SixteenBlockSector::S38);
        v.push(SixteenBlockSector::S39);
        v
    }
}

impl FourBlockSector {
    /// The block at `offset` within this sector.
    pub fn block(&self, offset: FourBlockOffset) -> (r: Block)
        ensures
            r.index() == block_index(self.value() as int, offset.value() as int),
    {
        Block::from_four_block_sector(*self, offset)
    }

    /// The four blocks of this sector, in order.
    pub fn iter_blocks(&self) -> (r: Vec<Block>)
        ensures
            r@.len() == 4,
            forall|i: int|
                0 <= i < 4 ==> (#[trigger] r@[i]).index() == block_index(self.value() as int, i),
    {
        let offsets = FourBlockOffset::iter();
        let mut blocks: Vec<Block> = Vec::new();
        let mut i: usize = 0;
        while i < offsets.len()
            invariant
                offsets@.len() == 4,
                forall|j: int| 0 <= j < 4 ==> (#[trigger] offsets@[j]).value() == j,
                i <= 4,
                blocks@.len() == i,
                forall|j: int|
                    0 <= j < i ==> (#[trigger] blocks@[j]).index() == block_index(
                        self.value() as int,
                        j,
                    ),
            decreases 4 - i,
        {
            blocks.push(self.block(offsets[i]));
            i += 1;
        }
        blocks
    }
}

impl SixteenBlockSector {
    /// The block at `offset` within this sector.
    pub fn block(&self, offset: SixteenBlockOffset) -> (r: Block)
        ensures
            r.index() == block_index(self.value() as int, offset.value() as int),
    {
        Block::from_sixteen_block_sector(*self, offset)
    }

    /// The sixteen blocks of this sector, in order.
    pub fn iter_blocks(&self) -> (r: Vec<Block>)
        ensures
            r@.len() == 16,
            forall|i: int|
                0 <= i < 16 ==> (#[trigger] r@[i]).index() == block_index(self.value() as int, i),
    {
        let offsets = SixteenBlockOffset::iter();
        let mut blocks: Vec<Block> = Vec::new();
        let mut i: usize = 0;
        while i < offsets.len()
            invariant
                offsets@.len() == 16,
                forall|j: int| 0 <= j < 16 ==> (#[trigger] offsets@[j]).value() == j,
                i <= 16,
                blocks@.len() == i,
                forall|j: int|
                    0 <= j < i ==> (#[trigger] blocks@[j]).index() == block_index(
                        self.value() as int,
                        j,
                    ),
            decreases 16 - i,
        {
            blocks.push(self.block(offsets[i]));
            i += 1;
        }
        blocks
    }
}

/// A MIFARE Classic sector of either four or sixteen blocks.
#[derive(Debug, Copy, Clone, PartialEq, Eq, Structural, PartialOrd, Ord, Hash)]
pub enum Sector {
    /// Sectors 0 to 31.
    FourBlock(FourBlockSector),
    /// Sectors 32 to 39.
    SixteenBlock(SixteenBlockSector),
}

/// The number of blocks in sector `s` (0–39).
pub open spec fn blocks_in_sector(s: int) -> int {
    if s <= 31 {
        4
    } else {
        16
    }
}

impl Sector {
    /// The sector number.
    pub open spec fn value(self) -> u8 {
        match self {
            Sector::FourBlock(s) => s.value(),
            Sector::SixteenBlock(s) => s.value(),
        }
    }

    /// Two sectors with the same number are the same sector.
    pub proof fn lemma_value_injective(self, other: Sector)
        ensures
            self.value() == other.value() ==> self == other,
    {
    }

    /// The sector number.
    pub fn to_u8(&self) -> (r: u8)
        ensures
            r == self.value(),
    {
        match self {
            Sector::FourBlock(s) => s.to_u8(),
            Sector::SixteenBlock(s) => s.to_u8(),
        }
    }

    /// The sector numbered `n`, which must be at most 39.
    pub(crate) fn from_u8(n: u8) -> (r: Sector)
        requires
            n <= 39,
        ensures
            r.value() == n,
    {
        if n <= 31 {
            Sector::FourBlock(FourBlockSector::from_u8(n))
        } else {
            Sector::SixteenBlock(SixteenBlockSector::from_u8(n))
        }
    }

    /// The sector numbered `n`; sectors are numbered 0 to 39.
    pub fn try_from(n: u8) -> (r: Result<Sector, Error>)
        ensures
            n <= 39 ==> (r matches Ok(s) && s.value() == n),
            n > 39 ==> r == Err::<Sector, Error>(Error::InvalidSector(n)),
    {
        if n <= 39 {
            Ok(Sector::from_u8(n))
        } else {
            Err(Error::InvalidSector(n))
        }
    }

    /// Every sector, 0 to 39, in order.
    pub fn iter() -> (r: Vec<Sector>)
        ensures
            r@.len() == 40,
            forall|i: int| 0 <= i < 40 ==> (#[trigger] r@[i]).value() == i,
    {
        let mut sectors: Vec<Sector> = Vec::new();
        let mut n: u8 = 0;
        while n < 40
            invariant
                n <= 40,
                sectors@.len() == n,
                forall|i: int| 0 <= i < n ==> (#[trigger] sectors@[i]).value() == i,
            decreases 40 - n,
        {
            sectors.push(Sector::from_u8(n));
            n += 1;
        }
        sectors
    }

    /// The blocks of this sector, in order.
    pub fn iter_blocks(&self) -> (r: Vec<Block>)
        ensures
            r@.len() == blocks_in_sector(self.value() as int),
            forall|i: int|
                0 <= i < r@.len() ==> (#[trigger] r@[i]).index() == block_index(
                    self.value() as int,
                    i,
                ),
    {
        match self {
            Sector::FourBlock(s) => s.iter_blocks(),
            Sector::SixteenBlock(s) => s.iter_blocks(),
        }
    }
}

/// Every block of a sector lies in that sector, and the blocks of a sector are contiguous.
pub proof fn lemma_block_in_sector(s: Sector, offset: int)
    requires
        0 <= offset < blocks_in_sector(s.value() as int),
    ensures
        valid_sector_offset(s.value() as int, offset),
        sector_index(block_index(s.value() as int, offset)) == s.value(),
        block_index(s.value() as int, offset) == block_index(s.value() as int, 0) + offset,
{
}

impl From<FourBlockSector> for Sector {
    fn from(value: FourBlockSector) -> Sector {
        Sector::FourBlock(value)
    }
}

impl vstd::std_specs::convert::FromSpecImpl<FourBlockSector> for Sector {
    open spec fn obeys_from_spec() -> bool {
        true
    }

    open spec fn from_spec(v: FourBlockSector) -> Sector {
        Sector::FourBlock(v)
    }
}

impl From<SixteenBlockSector> for Sector {
    fn from(value: SixteenBlockSector) -> Sector {
        Sector::SixteenBlock(value)
    }
}

impl vstd::std_specs::convert::FromSpecImpl<SixteenBlockSector> for Sector {
    open spec fn obeys_from_spec() -> bool {
        true
    }

    open spec fn from_spec(v: SixteenBlockSector) -> Sector {
        Sector::SixteenBlock(v)
    }
}

impl From<Sector> for u8 {
    fn from(value: Sector) -> u8 {
        value.to_u8()
    }
}

impl vstd::std_specs::convert::FromSpecImpl<Sector> for u8 {
    open spec fn obeys_from_spec() -> bool {
        true
    }

    open spec fn from_spec(v: Sector) -> u8 {
        v.value()
    }
}

impl From<Block> for Sector {
    /// The sector that holds a block.
    fn from(value: Block) -> Sector {
        let r = value.sector();
        proof {
            let c = choose|s: Sector| s.value() == sector_index(value.index() as int);
            r.lemma_value_injective(c);
        }
        r
    }
}

impl vstd::std_specs::convert::FromSpecImpl<Block> for Sector {
    open spec fn obeys_from_spec() -> bool {
        true
    }

    open spec fn from_spec(v: Block) -> Sector {
        choose|s: Sector| s.value() == sector_index(v.index() as int)
    }
}

} // verus!
