//! Sectors that may hold applications: every sector but the two that hold the directory.
use vstd::prelude::*;

use crate::mifare::sector::Sector;

verus! {

/// Whether sector number `n` may hold an application: 1 to 39, except 16.
pub open spec fn is_non_mad(n: u8) -> bool {
    1 <= n <= 39 && n != 16
}

/// A sector that holds no directory data: neither sector 0 (MADv1) nor sector 16 (MADv2).
#[derive(Debug, Copy, Clone, PartialEq, Eq, Structural, PartialOrd, Ord, Hash)]
pub struct NonMadSector(Sector);

impl NonMadSector {
    #[verifier::type_invariant]
    spec fn inv(self) -> bool {
        is_non_mad(self.0.value())
    }

    /// The sector.
    pub closed spec fn sector(self) -> Sector {
        self.0
    }

    /// The sector number.
    pub open spec fn value(self) -> u8 {
        self.sector().value()
    }

    /// The sector number, which is never 0 or 16.
    pub fn to_u8(&self) -> (r: u8)
        ensures
            r == self.value(),
            is_non_mad(r),
    {
        proof {
            use_type_invariant(self);
        }
        self.0.to_u8()
    }

    /// The sector.
    pub fn to_sector(&self) -> (r: Sector)
        ensures
            r == self.sector(),
            is_non_mad(r.value()),
    {
        proof {
            use_type_invariant(self);
        }
        self.0
    }

    /// The sector, unless it is 0 or 16.
    pub fn try_from(sector: Sector) -> (r: Result<NonMadSector, NonMadSectorError>)
        ensures
            sector.value() == 0 ==> r == Err::<NonMadSector, NonMadSectorError>(
                NonMadSectorError::ReservedForMadV1,
            ),
            sector.value() == 16 ==> r == Err::<NonMadSector, NonMadSectorError>(
                NonMadSectorError::ReservedForMadV2,
            ),
            is_non_mad(sector.value()) ==> (r matches Ok(s) && s.sector() == sector),
    {
        let n = sector.to_u8();
        if n == 0 {
            Err(NonMadSectorError::ReservedForMadV1)
        } else if n == 16 {
            Err(NonMadSectorError::ReservedForMadV2)
        } else {
            Ok(NonMadSector(sector))
        }
    }

    /// The sector numbered `n`, which may hold an application.
    pub(crate) fn from_u8(n: u8) -> (r: NonMadSector)
        requires
            is_non_mad(n),
        ensures
            r.value() == n,
    {
        NonMadSector(Sector::from_u8(n))
    }

    /// Every sector that may hold an application, in order: 1 to 15, then 17 to 39.
    pub fn iter() -> (r: Vec<NonMadSector>)
        ensures
            r@.len() == 38,
            forall|i: int|
                0 <= i < 38 ==> (#[trigger] r@[i]).value() == (if i < 15 {
                    i + 1
                } else {
                    i + 2
                }),
    {
        let mut sectors: Vec<NonMadSector> = Vec::new();
        let mut n: u8 = 1;
        while n < 40
            invariant
                1 <= n <= 40,
                sectors@.len() == (if n <= 16 {
                    n - 1
                } else {
                    n - 2
                }),
                forall|i: int|
                    0 <= i < sectors@.len() ==> (#[trigger] sectors@[i]).value() == (if i < 15 {
                        i + 1
                    } else {
                        i + 2
                    }),
            decreases 40 - n,
        {
            if n != 16 {
                sectors.push(NonMadSector::from_u8(n));
            }
            n += 1;
        }
        sectors
    }
}

impl From<NonMadSector> for Sector {
    fn from(value: NonMadSector) -> Sector {
        value.to_sector()
    }
}

impl vstd::std_specs::convert::FromSpecImpl<NonMadSector> for Sector {
    open spec fn obeys_from_spec() -> bool {
        true
    }

    open spec fn from_spec(v: NonMadSector) -> Sector {
        v.sector()
    }
}

impl From<NonMadSector> for u8 {
    fn from(value: NonMadSector) -> u8 {
        value.to_u8()
    }
}

impl vstd::std_specs::convert::FromSpecImpl<NonMadSector> for u8 {
    open spec fn obeys_from_spec() -> bool {
        true
    }

    open spec fn from_spec(v: NonMadSector) -> u8 {
        v.value()
    }
}

/// Why a sector cannot hold an application.
#[derive(Debug, Copy, Clone, PartialEq, Eq, Structural)]
pub enum NonMadSectorError {
    /// Sector is reserved for MADv1 data.
    ReservedForMadV1,
    /// Sector is reserved for MADv2 data.
    ReservedForMadV2,
}

} // verus!
