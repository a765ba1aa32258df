//! The byte layout of the MIFARE Application Directory: the General Purpose Byte, the info
//! bytes that point at the Card Publisher Sector, and the two-byte application slots.
use vstd::prelude::*;

use crate::mifare::crc::crc8_spec;
use crate::mifare::mad_application_id::{
    aid_from_bytes, free_aid, AdministrationCode, MadAid, MadAidError,
};
use crate::mifare::mifare_application_directory::{
    application_at, application_entries, insert_application, keys_once, ApplicationMap,
};
use crate::mifare::non_mad_sector::is_non_mad;
use crate::mifare::sector::Sector;
use crate::mifare::tag::Error;

verus! {

/// Default key A of the directory sectors.
pub const MAD_KEY_A: [u8; 6] = [0xA0, 0xA1, 0xA2, 0xA3, 0xA4, 0xA5];

/// Default key B of the directory sectors.
pub const MAD_KEY_B: [u8; 6] = [0xB0, 0xB1, 0xB2, 0xB3, 0xB4, 0xB5];

/// Access bits of the directory sectors: key A reads, key B reads and writes every block.
pub const MAD_ACCESS_BITS: [u8; 3] = [0x78, 0x77, 0x88];

/// Version of the directory layout.
#[derive(Debug, Copy, Clone, PartialEq, Eq, Structural)]
pub enum MadVersion {
    /// Directory in sector 0 only, covering sectors 1 to 15.
    V1,
    /// Directory in sectors 0 and 16, covering sectors 1 to 39.
    V2,
}

impl MadVersion {
    /// The version number.
    pub open spec fn value(self) -> u8 {
        match self {
            MadVersion::V1 => 1,
            MadVersion::V2 => 2,
        }
    }

    /// The version number.
    pub fn to_u8(&self) -> (r: u8)
        ensures
            r == self.value(),
    {
        match self {
            MadVersion::V1 => 1,
            MadVersion::V2 => 2,
        }
    }

    /// The version numbered `version`: 1 or 2.
    pub fn try_from(version: u8) -> (r: Result<MadVersion, MadError>)
        ensures
            version == 1 ==> r == Ok::<MadVersion, MadError>(MadVersion::V1),
            version == 2 ==> r == Ok::<MadVersion, MadError>(MadVersion::V2),
            version != 1 && version != 2 ==> r == Err::<MadVersion, MadError>(
                MadError::InvalidMadVersion(version),
            ),
    {
        match version {
            1 => Ok(MadVersion::V1),
            2 => Ok(MadVersion::V2),
            _ => Err(MadError::InvalidMadVersion(version)),
        }
    }
}

/// Why a directory could not be read, built or written.
#[derive(Debug)]
pub enum MadError {
    /// The General Purpose Byte says the card was never personalized.
    NotPersonalized,
    /// The General Purpose Byte says no directory is present.
    MadMissing,
    /// The General Purpose Byte holds a version other than 1 or 2.
    InvalidMadVersion(u8),
    /// A MADv1 Card Publisher Sector above sector 15.
    InvalidCardPublisherSectorForMadV1(Sector),
    /// The stored Card Publisher Sector is 16 or above 39.
    InvalidCardPublisherSector,
    /// A MADv1 application in a sector above 15.
    InvalidApplicationSectorForMadV1(Sector),
    /// A slot holds no valid application identifier.
    InvalidApplication(MadAidError),
    /// An application in a sector that holds directory data.
    InvalidApplicationSector(Sector),
    /// The stored CRC does not match the directory data.
    CrcMismatch,
    /// The tag or the key provider failed.
    TagError(Error),
}

impl From<Error> for MadError {
    fn from(error: Error) -> MadError {
        MadError::TagError(error)
    }
}

impl vstd::std_specs::convert::FromSpecImpl<Error> for MadError {
    open spec fn obeys_from_spec() -> bool {
        true
    }

    open spec fn from_spec(v: Error) -> MadError {
        MadError::TagError(v)
    }
}

impl From<MadAidError> for MadError {
    fn from(error: MadAidError) -> MadError {
        MadError::InvalidApplication(error)
    }
}

impl vstd::std_specs::convert::FromSpecImpl<MadAidError> for MadError {
    open spec fn obeys_from_spec() -> bool {
        true
    }

    open spec fn from_spec(v: MadAidError) -> MadError {
        MadError::InvalidApplication(v)
    }
}

/// The General Purpose Byte: 0x69 marks a card that was never personalized; bit 7 says a
/// directory is present, bit 6 that the card holds several applications, bits 0–1 the version.
pub open spec fn gpb_decoded(gpb: u8) -> Result<(bool, MadVersion), MadError> {
    if gpb == 0x69 {
        Err(MadError::NotPersonalized)
    } else if gpb & 0x80 == 0 {
        Err(MadError::MadMissing)
    } else if gpb & 0x03 == 1 {
        Ok((gpb & 0x40 != 0, MadVersion::V1))
    } else if gpb & 0x03 == 2 {
        Ok((gpb & 0x40 != 0, MadVersion::V2))
    } else {
        Err(MadError::InvalidMadVersion(gpb & 0x03))
    }
}

/// The General Purpose Byte written with a directory: bit 7 always set.
pub open spec fn gpb_encoded(multi_application_card: bool, mad_version: MadVersion) -> u8 {
    let ma: u8 = if multi_application_card {
        0x40
    } else {
        0
    };
    let adv: u8 = if mad_version == MadVersion::V1 {
        1
    } else {
        2
    };
    0x80u8 | ma | adv
}

/// Decodes the General Purpose Byte into the multi-application flag and the version.
pub fn decode_general_purpose_byte(gpb: u8) -> (r: Result<(bool, MadVersion), MadError>)
    ensures
        r == gpb_decoded(gpb),
        gpb == 0x69 ==> r matches Err(MadError::NotPersonalized),
{
    if gpb == 0x69 {
        return Err(MadError::NotPersonalized);
    }
    if gpb & 0x80 == 0 {
        return Err(MadError::MadMissing);
    }
    let multi_application_card = gpb & 0x40 != 0;
    match MadVersion::try_from(gpb & 0x03) {
        Ok(version) => Ok((multi_application_card, version)),
        Err(e) => Err(e),
    }
}

/// Encodes the General Purpose Byte of a directory being written.
pub fn encode_general_purpose_byte(multi_application_card: bool, mad_version: MadVersion) -> (r:
    u8)
    ensures
        r == gpb_encoded(multi_application_card, mad_version),
{
    let ma: u8 = if multi_application_card {
        0x40
    } else {
        0
    };
    let adv: u8 = if mad_version == MadVersion::V1 {
        1
    } else {
        2
    };
    0x80u8 | ma | adv
}

/// Decoding an encoded General Purpose Byte gives back its fields.
pub proof fn lemma_gpb_round_trip(multi_application_card: bool, mad_version: MadVersion)
    ensures
        gpb_decoded(gpb_encoded(multi_application_card, mad_version)) == Ok::<
            (bool, MadVersion),
            MadError,
        >((multi_application_card, mad_version)),
{
    let ma: u8 = if multi_application_card {
        0x40
    } else {
        0
    };
    let adv: u8 = if mad_version == MadVersion::V1 {
        1
    } else {
        2
    };
    assert((ma == 0x40 || ma == 0) && (adv == 1 || adv == 2) ==> {
        let g = 0x80u8 | ma | adv;
        &&& g != 0x69
        &&& g & 0x80 != 0
        &&& g & 0x03 == adv
        &&& (g & 0x40 != 0) == (ma == 0x40)
    }) by (bit_vector);
}

/// The Card Publisher Sector held in the low four bits of the MADv1 info byte.
pub open spec fn cps_v1_decoded(info: u8) -> Option<u8> {
    if info & 0x0F == 0 {
        None
    } else {
        Some(info & 0x0F)
    }
}

/// The Card Publisher Sector held in the low six bits of the MADv2 info byte; zero keeps the
/// MADv1 one.
pub open spec fn cps_v2_decoded(info: u8, cps_v1: Option<u8>) -> Result<Option<u8>, MadError> {
    let c = info & 0x3F;
    if c == 0 {
        Ok(cps_v1)
    } else if is_non_mad(c) {
        Ok(Some(c))
    } else {
        Err(MadError::InvalidCardPublisherSector)
    }
}

/// The applications of the `n` slots that follow the CRC and info bytes of `data`, slot `j`
/// describing sector `first + j`; a slot stores the application code, then the function
/// cluster byte. Free slots are left out; the first invalid slot is the error.
pub open spec fn slots_decoded(data: Seq<u8>, first: int, n: nat) -> Result<
    Map<u8, MadAid>,
    MadError,
>
    decreases n,
{
    if n == 0 {
        Ok(Map::empty())
    } else {
        match slots_decoded(data, first, (n - 1) as nat) {
            Err(e) => Err(e),
            Ok(m) => {
                let j = n - 1;
                match aid_from_bytes(data[3 + 2 * j], data[2 + 2 * j]) {
                    Err(e) => Err(MadError::InvalidApplication(e)),
                    Ok(aid) => if aid == free_aid() {
                        Ok(m)
                    } else {
                        Ok(m.insert((first + j) as u8, aid))
                    },
                }
            },
        }
    }
}

/// The identifier stored for sector `s`: free where `apps` holds none.
pub open spec fn aid_for(apps: Map<u8, MadAid>, s: int) -> MadAid {
    if apps.contains_key(s as u8) {
        apps[s as u8]
    } else {
        free_aid()
    }
}

/// The `n` slots for sectors `first` to `first + n - 1`, application code first.
pub open spec fn slots_encoded(apps: Map<u8, MadAid>, first: int, n: nat) -> Seq<u8> {
    Seq::new(
        2 * n,
        |i: int|
            if i % 2 == 0 {
                aid_for(apps, first + i / 2).bytes().1
            } else {
                aid_for(apps, first + i / 2).bytes().0
            },
    )
}

/// The CRC byte followed by the data it covers.
pub open spec fn with_crc(body: Seq<u8>) -> Seq<u8> {
    seq![crc8_spec(body)] + body
}

/// A directory sector trailer: key A, the access bits, the General Purpose Byte, key B.
pub open spec fn trailer_encoded(gpb: u8) -> Seq<u8> {
    seq![
        0xA0u8, 0xA1u8, 0xA2u8, 0xA3u8, 0xA4u8, 0xA5u8, 0x78u8, 0x77u8, 0x88u8, gpb,
        0xB0u8, 0xB1u8, 0xB2u8, 0xB3u8, 0xB4u8, 0xB5u8,
    ]
}

/// Appends the slots of sectors `first` to `first + n - 1` to `out`.
pub fn encode_slots(
    apps: &ApplicationMap,
    first: u8,
    n: u8,
    out: &mut Vec<u8>,
)
    requires
        first as int + n as int <= 40,
    ensures
        final(out)@ == old(out)@ + slots_encoded(
            application_entries(*apps),
            first as int,
            n as nat,
        ),
{
    let ghost entries = application_entries(*apps);
    let ghost start = out@;
    let mut j: u8 = 0;
    while j < n
        invariant
            j <= n,
            first as int + n as int <= 40,
            out@ == start + slots_encoded(entries, first as int, j as nat),
            entries == application_entries(*apps),
        decreases n - j,
    {
        let sector: u8 = first + j;
        let found = application_at(apps, sector);
        let aid = match found {
            Some(aid) => aid,
            None => MadAid::CardAdministration(AdministrationCode::Free),
        };
        let bytes = aid.to_u8_slice();
        out.push(bytes[1]);
        out.push(bytes[0]);
        proof {
            let a = aid_for(entries, sector as int);
            assert(sector as int as u8 == sector);
            assert(aid == a);
            assert(slots_encoded(entries, first as int, (j + 1) as nat) =~= slots_encoded(
                entries,
                first as int,
                j as nat,
            ) + seq![a.bytes().1, a.bytes().0]);
        }
        j += 1;
    }
}

/// Once a slot is invalid, decoding more slots gives the same error.
pub proof fn lemma_slots_error_stays(data: Seq<u8>, first: int, n: nat, m: nat)
    requires
        n <= m,
        slots_decoded(data, first, n) is Err,
    ensures
        slots_decoded(data, first, m) == slots_decoded(data, first, n),
    decreases m - n,
{
    if n < m {
        lemma_slots_error_stays(data, first, n, (m - 1) as nat);
    }
}

/// Adds to `apps` the applications of the `n` slots after the CRC and info bytes of `data`,
/// slot `j` standing for sector `first + j`.
pub(crate) fn decode_slots(data: &[u8], first: u8, n: u8, apps: &mut ApplicationMap) -> (r: Result<
    (),
    MadError,
>)
    requires
        data@.len() == 2 + 2 * n,
        first as int + n as int <= 40,
        keys_once(*old(apps)),
        application_entries(*old(apps)).dom().len() + n <= 38,
        forall|k: u8| application_entries(*old(apps)).contains_key(k) ==> k < first,
    ensures
        r is Ok ==> (slots_decoded(data@, first as int, n as nat) matches Ok(m)
            && application_entries(*final(apps)) == application_entries(*old(apps)).union_prefer_right(m)),
        r matches Err(e) ==> slots_decoded(data@, first as int, n as nat) == Err::<
            Map<u8, MadAid>,
            MadError,
        >(e),
        keys_once(*final(apps)),
        application_entries(*final(apps)).dom().len() <= application_entries(*old(apps)).dom().len() + n,
        forall|k: u8| #[trigger]
            application_entries(*final(apps)).contains_key(k) ==> application_entries(
                *old(apps),
            ).contains_key(k) || first <= k,
        forall|k: u8| application_entries(*final(apps)).contains_key(k) ==> k < first + n,
{
    let ghost start = application_entries(*apps);
    let mut j: u8 = 0;
    while j < n
        invariant
            j <= n,
            data@.len() == 2 + 2 * n,
            first as int + n as int <= 40,
            start == application_entries(*old(apps)),
            start.dom().finite(),
            start.dom().len() + n <= 38,
            forall|k: u8| start.contains_key(k) ==> k < first,
            slots_decoded(data@, first as int, j as nat) matches Ok(m) && application_entries(*apps)
                == start.union_prefer_right(m),
            keys_once(*apps),
            application_entries(*apps).dom().len() <= start.dom().len() + j,
            forall|k: u8| application_entries(*apps).contains_key(k) ==> k < first + j,
            forall|k: u8| #[trigger]
                application_entries(*apps).contains_key(k) ==> start.contains_key(k) || first <= k,
        decreases n - j,
    {
        let ghost before = application_entries(*apps);
        let application_code = data[2 + 2 * j as usize];
        let function_cluster = data[3 + 2 * j as usize];
        match MadAid::try_from_u8(function_cluster, application_code) {
            Err(e) => {
                proof {
                    lemma_slots_error_stays(data@, first as int, (j + 1) as nat, n as nat);
                }
                return Err(MadError::InvalidApplication(e));
            },
            Ok(aid) => {
                if aid != MadAid::CardAdministration(AdministrationCode::Free) {
                    let inserted = insert_application(apps, first + j, aid);
                    assert(inserted);
                    proof {
                        let m = slots_decoded(data@, first as int, j as nat)->Ok_0;
                        assert(application_entries(*apps) =~= start.union_prefer_right(
                            m.insert((first + j) as u8, aid),
                        ));
                    }
                }
            },
        }
        j += 1;
    }
    Ok(())
}

} // verus!
