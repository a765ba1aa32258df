//! The Card Publisher Sector (CPS): the sector that describes who issued the card.
use vstd::prelude::*;

use crate::mifare::classic_address::MifareClassicSector;

verus! {

/// A Card Publisher Sector: neither sector 0 (MADv1) nor sector 16 (MADv2).
#[derive(Debug, Copy, Clone, PartialEq, Eq, Structural)]
pub struct CardPublisherSector(MifareClassicSector);

impl CardPublisherSector {
    #[verifier::type_invariant]
    spec fn inv(self) -> bool {
        self.0.value() != 0 && self.0.value() != 0x10 && self.0.value() <= 0x27
    }

    /// The sector.
    pub closed spec fn sector(self) -> MifareClassicSector {
        self.0
    }

    /// Checks `sector` against the sectors that hold the directory.
    pub fn new(sector: MifareClassicSector) -> (r: Result<Self, CardPublisherSectorError>)
        ensures
            sector.value() == 0 ==> r == Err::<Self, CardPublisherSectorError>(
                CardPublisherSectorError::ReservedForMadV1,
            ),
            sector.value() == 0x10 ==> r == Err::<Self, CardPublisherSectorError>(
                CardPublisherSectorError::ReservedForMadV2,
            ),
            sector.value() >= 0x28 ==> r == Err::<Self, CardPublisherSectorError>(
                CardPublisherSectorError::SectorOutOfRange(sector),
            ),
            (sector.value() != 0 && sector.value() != 0x10 && sector.value() < 0x28) ==> (r matches Ok(
                c,
            ) && c.sector() == sector),
    {
        let n = sector.to_u8();
        if n == 0x00 {
            Err(CardPublisherSectorError::ReservedForMadV1)
        } else if n == 0x10 {
            Err(CardPublisherSectorError::ReservedForMadV2)
        } else if n >= 0x28 {
            Err(CardPublisherSectorError::SectorOutOfRange(sector))
        } else {
            Ok(CardPublisherSector(sector))
        }
    }

    /// The sector.
    pub fn to_sector(&self) -> (r: MifareClassicSector)
        ensures
            r == self.sector(),
    {
        self.0
    }

    /// The sector number.
    pub fn to_u8(&self) -> (r: u8)
        ensures
            r == self.sector().value(),
            r != 0 && r != 0x10 && r < 0x28,
    {
        proof {
            use_type_invariant(self);
        }
        self.0.to_u8()
    }
}

impl From<CardPublisherSector> for MifareClassicSector {
    fn from(value: CardPublisherSector) -> MifareClassicSector {
        value.to_sector()
    }
}

impl vstd::std_specs::convert::FromSpecImpl<CardPublisherSector> for MifareClassicSector {
    open spec fn obeys_from_spec() -> bool {
        true
    }

    open spec fn from_spec(v: CardPublisherSector) -> MifareClassicSector {
        v.sector()
    }
}

impl From<CardPublisherSector> for u8 {
    fn from(value: CardPublisherSector) -> u8 {
        value.to_u8()
    }
}

impl vstd::std_specs::convert::FromSpecImpl<CardPublisherSector> for u8 {
    open spec fn obeys_from_spec() -> bool {
        true
    }

    open spec fn from_spec(v: CardPublisherSector) -> u8 {
        v.sector().value()
    }
}

/// Why a sector cannot be the Card Publisher Sector.
#[derive(Debug, Copy, Clone, PartialEq, Eq, Structural)]
pub enum CardPublisherSectorError {
    ReservedForMadV1,
    ReservedForMadV2,
    SectorOutOfRange(MifareClassicSector),
}

} // verus!
