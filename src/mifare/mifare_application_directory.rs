//! Reading and writing the MIFARE Application Directory.
use vstd::prelude::*;

use heapless::LinearMap;

use crate::mifare::block::FourBlockOffset;
use crate::mifare::crc::{crc8, crc8_spec};
use crate::mifare::mad_application_id::{free_aid, AdministrationCode, MadAid};
use crate::mifare::mad_codec::{
    aid_for, cps_v1_decoded, cps_v2_decoded, decode_general_purpose_byte, decode_slots,
    encode_general_purpose_byte, encode_slots, gpb_decoded, gpb_encoded, slots_decoded,
    slots_encoded, trailer_encoded, with_crc, MadError, MadVersion, MAD_ACCESS_BITS, MAD_KEY_A,
    MAD_KEY_B,
};
use crate::mifare::non_mad_sector::{is_non_mad, NonMadSector};
use crate::mifare::sector::{FourBlockSector, Sector};
use crate::mifare::tag::{KeyProvider, Tag};

verus! {

#[verifier::external_type_specification]
#[verifier::external_body]
#[verifier::reject_recursive_types(K)]
#[verifier::reject_recursive_types(V)]
pub struct ExLinearMap<K, V, const N: usize>(LinearMap<K, V, N>);

/// Application identifiers keyed by sector number, for at most 38 sectors.
pub type ApplicationMap = LinearMap<u8, MadAid, 38>;

/// The entries of a map from sector numbers to application identifiers.
pub uninterp spec fn application_entries(m: ApplicationMap) -> Map<u8, MadAid>;

/// The number of key-value pairs a map stores.
pub uninterp spec fn application_count(m: ApplicationMap) -> nat;

/// A map stores each of its keys once.
pub open spec fn keys_once(m: ApplicationMap) -> bool {
    &&& application_entries(m).dom().finite()
    &&& application_count(m) == application_entries(m).dom().len()
}

/// Relies on heapless::LinearMap::new: a new map stores no pair.
#[verifier::external_body]
pub(crate) fn empty_applications() -> (r: ApplicationMap)
    ensures
        application_entries(r).dom() == Set::<u8>::empty(),
        application_count(r) == 0,
{
    LinearMap::new()
}

/// Relies on heapless::LinearMap::insert: a present key gets the new value; an absent key is
/// added as a new pair while fewer than 38 pairs are stored; otherwise the map is left as it was.
#[verifier::external_body]
pub(crate) fn insert_application(m: &mut ApplicationMap, sector: u8, aid: MadAid) -> (r: bool)
    requires
        keys_once(*old(m)),
    ensures
        keys_once(*final(m)),
        r == (application_entries(*old(m)).contains_key(sector) || application_entries(
            *old(m),
        ).dom().len() < 38),
        r ==> application_entries(*final(m)) == application_entries(*old(m)).insert(sector, aid),
        !r ==> application_entries(*final(m)) == application_entries(*old(m)),
{
    m.insert(sector, aid).is_ok()
}

/// Relies on heapless::LinearMap::get: the value held for a key, if any.
#[verifier::external_body]
pub(crate) fn application_at(m: &ApplicationMap, sector: u8) -> (r: Option<MadAid>)
    ensures
        r == (if application_entries(*m).contains_key(sector) {
            Some(application_entries(*m)[sector])
        } else {
            None
        }),
{
    m.get(&sector).copied()
}

/// Relies on heapless::LinearMap::iter: it yields the stored pairs, so each key once with its
/// value when every key is stored once.
#[verifier::external_body]
pub(crate) fn application_list(m: &ApplicationMap) -> (r: Vec<(u8, MadAid)>)
    requires
        keys_once(*m),
    ensures
        r@.len() == application_count(*m),
        forall|i: int, j: int|
            0 <= i < r@.len() && 0 <= j < r@.len() && i != j ==> (#[trigger] r@[i]).0 != (
            #[trigger] r@[j]).0,
        forall|i: int|
            0 <= i < r@.len() ==> application_entries(*m).contains_key(#[trigger] r@[i].0)
                && application_entries(*m)[r@[i].0] == r@[i].1,
        forall|k: u8|
            application_entries(*m).contains_key(k) ==> exists|i: int|
                0 <= i < r@.len() && (#[trigger] r@[i]).0 == k,
{
    m.iter().map(|(k, v)| (*k, *v)).collect()
}

/// What a directory states: the flags of its General Purpose Byte, its Card Publisher Sector
/// and the application of each sector that is not free.
pub struct MadView {
    pub multi_application_card: bool,
    pub mad_version: MadVersion,
    pub card_publisher_sector: Option<u8>,
    pub applications: Map<u8, MadAid>,
}

impl MadView {
    /// The invariants of a directory: applications sit in sectors that hold no directory data,
    /// none is free, and a MADv1 directory reaches no further than sector 15.
    pub open spec fn wf(self) -> bool {
        &&& self.applications.dom().finite()
        &&& forall|k: u8| #[trigger]
            self.applications.contains_key(k) ==> is_non_mad(k) && self.applications[k]
                != free_aid() && self.applications[k].wf()
        &&& self.card_publisher_sector matches Some(c) ==> is_non_mad(c)
        &&& self.mad_version == MadVersion::V1 ==> {
            &&& forall|k: u8| #[trigger] self.applications.contains_key(k) ==> k <= 15
            &&& self.card_publisher_sector matches Some(c) ==> c <= 15
        }
    }
}

/// The Card Publisher Sector and the applications that the 32 bytes of MADv1 data (CRC, info
/// byte, slots of sectors 1 to 15) describe.
pub open spec fn mad_v1_decoded(data: Seq<u8>) -> Result<(Option<u8>, Map<u8, MadAid>), MadError> {
    if data[0] != crc8_spec(data.subrange(1, 32)) {
        Err(MadError::CrcMismatch)
    } else {
        match slots_decoded(data, 1, 15) {
            Err(e) => Err(e),
            Ok(m) => Ok((cps_v1_decoded(data[1]), m)),
        }
    }
}

/// The Card Publisher Sector and the applications that the 48 bytes of MADv2 data (CRC, info
/// byte, slots of sectors 17 to 39) describe.
pub open spec fn mad_v2_decoded(data: Seq<u8>, cps_v1: Option<u8>) -> Result<
    (Option<u8>, Map<u8, MadAid>),
    MadError,
> {
    if data[0] != crc8_spec(data.subrange(1, 48)) {
        Err(MadError::CrcMismatch)
    } else {
        match cps_v2_decoded(data[1], cps_v1) {
            Err(e) => Err(e),
            Ok(cps) => match slots_decoded(data, 17, 23) {
                Err(e) => Err(e),
                Ok(m) => Ok((cps, m)),
            },
        }
    }
}

/// The directory that a General Purpose Byte, 32 bytes of MADv1 data and, for MADv2, 48 bytes
/// of MADv2 data describe; the first failing check is the error.
pub open spec fn mad_decoded(gpb: u8, mad_v1: Seq<u8>, mad_v2: Seq<u8>) -> Result<
    MadView,
    MadError,
> {
    match gpb_decoded(gpb) {
        Err(e) => Err(e),
        Ok((multi_application_card, mad_version)) => match mad_v1_decoded(mad_v1) {
            Err(e) => Err(e),
            Ok((cps_v1, apps_v1)) => if mad_version == MadVersion::V1 {
                Ok(
                    MadView {
                        multi_application_card,
                        mad_version,
                        card_publisher_sector: cps_v1,
                        applications: apps_v1,
                    },
                )
            } else {
                match mad_v2_decoded(mad_v2, cps_v1) {
                    Err(e) => Err(e),
                    Ok((cps, apps_v2)) => Ok(
                        MadView {
                            multi_application_card,
                            mad_version,
                            card_publisher_sector: cps,
                            applications: apps_v1.union_prefer_right(apps_v2),
                        },
                    ),
                }
            },
        },
    }
}

/// The directory that blocks 1 to 3 of sector 0 and blocks 0 to 2 of sector 16 describe: the
/// General Purpose Byte is byte 9 of block 3, the MADv1 data fills blocks 1 and 2, the MADv2
/// data blocks 0 to 2 of sector 16.
pub open spec fn mad_from_blocks(
    block_1: Seq<u8>,
    block_2: Seq<u8>,
    block_3: Seq<u8>,
    block_16_0: Seq<u8>,
    block_16_1: Seq<u8>,
    block_16_2: Seq<u8>,
) -> Result<MadView, MadError> {
    mad_decoded(block_3[9], block_1 + block_2, block_16_0 + block_16_1 + block_16_2)
}

/// The info byte written for a directory: its Card Publisher Sector, or zero.
pub open spec fn info_encoded(v: MadView) -> u8 {
    match v.card_publisher_sector {
        Some(c) => c,
        None => 0,
    }
}

/// Blocks 1 to 3 of sector 0 as written for a directory: CRC, info byte, the slots of sectors
/// 1 to 15, then the sector trailer.
pub open spec fn sector_0_encoded(v: MadView) -> Seq<u8> {
    with_crc(seq![info_encoded(v)] + slots_encoded(v.applications, 1, 15)) + trailer_encoded(
        gpb_encoded(v.multi_application_card, v.mad_version),
    )
}

/// Blocks 0 to 3 of sector 16 as written for a MADv2 directory: CRC, info byte, the slots of
/// sectors 17 to 39, then the sector trailer.
pub open spec fn sector_16_encoded(v: MadView) -> Seq<u8> {
    with_crc(seq![info_encoded(v)] + slots_encoded(v.applications, 17, 23)) + trailer_encoded(
        gpb_encoded(v.multi_application_card, v.mad_version),
    )
}

/// The sector numbers of an optional sector.
pub open spec fn opt_value(s: Option<NonMadSector>) -> Option<u8> {
    match s {
        Some(s) => Some(s.value()),
        None => None,
    }
}

/// The applications that a list describes: free entries are left out and a later entry for a
/// sector replaces an earlier one.
pub open spec fn applications_of(list: Seq<(NonMadSector, MadAid)>) -> Map<u8, MadAid>
    decreases list.len(),
{
    if list.len() == 0 {
        Map::empty()
    } else {
        let m = applications_of(list.drop_last());
        if list.last().1 == free_aid() {
            m
        } else {
            m.insert(list.last().0.value(), list.last().1)
        }
    }
}

/// The sector of the first entry among the first `n` of a list that is not free and lies
/// above sector 15.
pub open spec fn first_beyond_v1(list: Seq<(NonMadSector, MadAid)>, n: int) -> Option<Sector>
    decreases n,
{
    if n <= 0 {
        None
    } else {
        match first_beyond_v1(list, n - 1) {
            Some(s) => Some(s),
            None => if list[n - 1].1 != free_aid() && list[n - 1].0.value() > 15 {
                Some(list[n - 1].0.sector())
            } else {
                None
            },
        }
    }
}

/// The directory that the validating constructor builds, or why it refuses.
pub open spec fn mad_built(
    multi_application_card: bool,
    mad_version: MadVersion,
    card_publisher_sector: Option<NonMadSector>,
    list: Seq<(NonMadSector, MadAid)>,
) -> Result<MadView, MadError> {
    if mad_version == MadVersion::V1 && (card_publisher_sector matches Some(c) && c.value() > 15) {
        Err(MadError::InvalidCardPublisherSectorForMadV1(card_publisher_sector->Some_0.sector()))
    } else if mad_version == MadVersion::V1 && first_beyond_v1(list, list.len() as int) is Some {
        Err(
            MadError::InvalidApplicationSectorForMadV1(
                first_beyond_v1(list, list.len() as int)->Some_0,
            ),
        )
    } else {
        Ok(
            MadView {
                multi_application_card,
                mad_version,
                card_publisher_sector: opt_value(card_publisher_sector),
                applications: applications_of(list),
            },
        )
    }
}

/// The sector numbers that may hold an application, below `n`.
spec fn non_mad_below(n: int) -> Set<u8> {
    Set::new(|k: u8| is_non_mad(k) && k < n)
}

proof fn lemma_non_mad_below(n: int)
    requires
        1 <= n <= 40,
    ensures
        non_mad_below(n).finite(),
        non_mad_below(n).len() == (if n <= 16 {
            n - 1
        } else {
            n - 2
        }),
    decreases n,
{
    if n == 1 {
        assert(non_mad_below(1) =~= Set::empty());
    } else {
        lemma_non_mad_below(n - 1);
        if n - 1 == 16 {
            assert(non_mad_below(n) =~= non_mad_below(n - 1));
        } else {
            assert(non_mad_below(n) =~= non_mad_below(n - 1).insert((n - 1) as u8));
        }
    }
}

/// A map whose keys may all hold applications, and which lacks one such key, has room for it.
proof fn lemma_room_for(keys: Set<u8>, k: u8)
    requires
        forall|x: u8| keys.contains(x) ==> is_non_mad(x),
        is_non_mad(k),
        !keys.contains(k),
    ensures
        keys.finite(),
        keys.len() < 38,
{
    lemma_non_mad_below(40);
    let all = non_mad_below(40);
    assert(keys.subset_of(all.remove(k)));
    vstd::set_lib::lemma_len_subset(keys, all.remove(k));
}

/// A directory of the MIFARE Application Directory: built through its validating constructor,
/// or read from a tag.
#[derive(Debug)]
pub struct MifareApplicationDirectory {
    pub multi_application_card: bool,
    pub mad_version: MadVersion,
    pub card_publisher_sector: Option<NonMadSector>,
    applications: ApplicationMap,
}

impl MifareApplicationDirectory {
    /// Applications sit only in sectors that hold no directory data, and none is free.
    #[verifier::type_invariant]
    spec fn inv(self) -> bool {
        &&& keys_once(self.applications)
        &&& forall|k: u8| #[trigger]
            application_entries(self.applications).contains_key(k) ==> is_non_mad(k)
                && application_entries(self.applications)[k] != free_aid()
    }

    /// The multi-application flag, as the view holds it.
    pub fn multi_application_card(&self) -> (r: bool)
        ensures
            r == self@.multi_application_card,
    {
        self.multi_application_card
    }

    /// The directory version, as the view holds it.
    pub fn mad_version(&self) -> (r: MadVersion)
        ensures
            r == self@.mad_version,
    {
        self.mad_version
    }

    /// The Card Publisher Sector, whose number the view holds.
    pub fn card_publisher_sector(&self) -> (r: Option<NonMadSector>)
        ensures
            opt_value(r) == self@.card_publisher_sector,
    {
        self.card_publisher_sector
    }
}

impl View for MifareApplicationDirectory {
    type V = MadView;

    closed spec fn view(&self) -> MadView {
        MadView {
            multi_application_card: self.multi_application_card,
            mad_version: self.mad_version,
            card_publisher_sector: opt_value(self.card_publisher_sector),
            applications: application_entries(self.applications),
        }
    }
}

/// Decoded slots lie in their range of sectors and hold well-formed identifiers that are not
/// free.
proof fn lemma_slots_decoded_wf(data: Seq<u8>, first: int, n: nat)
    requires
        slots_decoded(data, first, n) is Ok,
        0 <= first,
        first + n <= 256,
    ensures
        slots_decoded(data, first, n)->Ok_0.dom().finite(),
        slots_decoded(data, first, n)->Ok_0.dom().len() <= n,
        forall|k: u8| #[trigger]
            slots_decoded(data, first, n)->Ok_0.contains_key(k) ==> first <= k < first + n
                && slots_decoded(data, first, n)->Ok_0[k] != free_aid() && slots_decoded(
                data,
                first,
                n,
            )->Ok_0[k].wf(),
    decreases n,
{
    if n > 0 {
        let j = n - 1;
        lemma_slots_decoded_wf(data, first, (n - 1) as nat);
        MadAid::lemma_from_bytes(data[3 + 2 * j], data[2 + 2 * j]);
    }
}

/// Appends the bytes of an array.
fn append_array<const N: usize>(out: &mut Vec<u8>, bytes: &[u8; N])
    ensures
        final(out)@ == old(out)@ + bytes@,
{
    let ghost start = out@;
    let mut i: usize = 0;
    while i < N
        invariant
            i <= N,
            bytes@.len() == N,
            out@ == start + bytes@.subrange(0, i as int),
        decreases N - i,
    {
        out.push(bytes[i]);
        assert(bytes@.subrange(0, i + 1) =~= bytes@.subrange(0, i as int).push(bytes@[i as int]));
        i += 1;
    }
    assert(bytes@.subrange(0, N as int) =~= bytes@);
}

/// Appends the bytes of a slice.
fn append_slice(out: &mut Vec<u8>, bytes: &[u8])
    ensures
        final(out)@ == old(out)@ + bytes@,
{
    let ghost start = out@;
    let mut i: usize = 0;
    while i < bytes.len()
        invariant
            i <= bytes@.len(),
            out@ == start + bytes@.subrange(0, i as int),
        decreases bytes@.len() - i,
    {
        out.push(bytes[i]);
        assert(bytes@.subrange(0, i + 1) =~= bytes@.subrange(0, i as int).push(bytes@[i as int]));
        i += 1;
    }
    assert(bytes@.subrange(0, bytes@.len() as int) =~= bytes@);
}

/// Appends a directory sector trailer: key A, the access bits, the General Purpose Byte, key B.
fn append_trailer(out: &mut Vec<u8>, gpb: u8)
    ensures
        final(out)@ == old(out)@ + trailer_encoded(gpb),
{
    let ghost start = out@;
    append_array(out, &MAD_KEY_A);
    append_array(out, &MAD_ACCESS_BITS);
    out.push(gpb);
    append_array(out, &MAD_KEY_B);
    assert(MAD_KEY_A@ =~= seq![0xA0u8, 0xA1u8, 0xA2u8, 0xA3u8, 0xA4u8, 0xA5u8]);
    assert(MAD_KEY_B@ =~= seq![0xB0u8, 0xB1u8, 0xB2u8, 0xB3u8, 0xB4u8, 0xB5u8]);
    assert(MAD_ACCESS_BITS@ =~= seq![0x78u8, 0x77u8, 0x88u8]);
    assert(out@ =~= start + trailer_encoded(gpb));
}

/// The block of sixteen bytes starting at `start`.
fn block_at(data: &Vec<u8>, start: usize) -> (r: [u8; 16])
    requires
        start + 16 <= data@.len(),
    ensures
        r@ == data@.subrange(start as int, start + 16),
{
    let mut block = [0u8; 16];
    let len = data.len();
    let mut i: usize = 0;
    while i < 16
        invariant
            i <= 16,
            start + 16 <= data@.len(),
            block@.len() == 16,
            len == data@.len(),
            forall|j: int| 0 <= j < i ==> block@[j] == data@[start + j],
        decreases 16 - i,
    {
        block.set(i, data[start + i]);
        i += 1;
    }
    assert(block@ =~= data@.subrange(start as int, start + 16));
    block
}

impl MifareApplicationDirectory {
    /// Checks the CRC of the 32 bytes of MADv1 data and adds their applications to the empty
    /// map `apps`; returns their Card Publisher Sector.
    fn decode_mad_v1(mad_v1: &[u8], apps: &mut ApplicationMap) -> (r: Result<
        Option<NonMadSector>,
        MadError,
    >)
        requires
            mad_v1@.len() == 32,
            application_entries(*old(apps)).dom() == Set::<u8>::empty(),
            keys_once(*old(apps)),
        ensures
            r matches Ok(cps) ==> mad_v1_decoded(mad_v1@) == Ok::<
                (Option<u8>, Map<u8, MadAid>),
                MadError,
            >((opt_value(cps), application_entries(*final(apps)))),
            r matches Err(e) ==> mad_v1_decoded(mad_v1@) == Err::<
                (Option<u8>, Map<u8, MadAid>),
                MadError,
            >(e),
            keys_once(*final(apps)),
            application_entries(*final(apps)).dom().len() <= 15,
            forall|k: u8| #[trigger]
                application_entries(*final(apps)).contains_key(k) ==> 1 <= k <= 15,
    {
        let expected_crc = mad_v1[0];
        if crc8(vstd::slice::slice_subrange(mad_v1, 1, 32)) != expected_crc {
            return Err(MadError::CrcMismatch);
        }
        // The MADv1 Card Publisher Sector fills the low four bits of the info byte.
        let info_byte = mad_v1[1];
        let info = info_byte & 0x0F;
        assert(info_byte & 0x0F <= 15) by (bit_vector);
        let cps = if info == 0 {
            None
        } else {
            Some(NonMadSector::from_u8(info))
        };
        proof {
            assert(application_entries(*apps).dom().len() == 0);
        }
        match decode_slots(mad_v1, 1, 15, apps) {
            Err(e) => Err(e),
            Ok(()) => {
                proof {
                    let m = slots_decoded(mad_v1@, 1, 15)->Ok_0;
                    lemma_slots_decoded_wf(mad_v1@, 1, 15);
                    assert(application_entries(*apps) =~= m);
                }
                Ok(cps)
            },
        }
    }

    /// Checks the CRC of the 48 bytes of MADv2 data and adds their applications to `apps`,
    /// which holds those of MADv1; returns the Card Publisher Sector.
    fn decode_mad_v2(mad_v2: &[u8], cps_v1: Option<NonMadSector>, apps: &mut ApplicationMap) -> (r:
        Result<Option<NonMadSector>, MadError>)
        requires
            mad_v2@.len() == 48,
            keys_once(*old(apps)),
            application_entries(*old(apps)).dom().len() <= 15,
            forall|k: u8| #[trigger]
                application_entries(*old(apps)).contains_key(k) ==> 1 <= k <= 15,
        ensures
            r matches Ok(cps) ==> (mad_v2_decoded(mad_v2@, opt_value(cps_v1)) matches Ok((c, m))
                && c == opt_value(cps) && application_entries(*final(apps))
                == application_entries(*old(apps)).union_prefer_right(m)),
            r matches Err(e) ==> mad_v2_decoded(mad_v2@, opt_value(cps_v1)) == Err::<
                (Option<u8>, Map<u8, MadAid>),
                MadError,
            >(e),
            keys_once(*final(apps)),
    {
        let expected_crc = mad_v2[0];
        if crc8(vstd::slice::slice_subrange(mad_v2, 1, 48)) != expected_crc {
            return Err(MadError::CrcMismatch);
        }
        // The MADv2 Card Publisher Sector fills the low six bits of the info byte.
        let info = mad_v2[1] & 0x3F;
        let cps = if info == 0 {
            cps_v1
        } else if info <= 39 && info != 16 {
            Some(NonMadSector::from_u8(info))
        } else {
            return Err(MadError::InvalidCardPublisherSector);
        };
        match decode_slots(mad_v2, 17, 23, apps) {
            Err(e) => Err(e),
            Ok(()) => Ok(cps),
        }
    }

    /// Decodes a directory from its General Purpose Byte, the 32 bytes of MADv1 data (blocks 1
    /// and 2 of sector 0) and, for MADv2, the 48 bytes of MADv2 data (blocks 0 to 2 of sector
    /// 16).
    pub fn decode(general_purpose_byte: u8, mad_v1: &[u8], mad_v2: &[u8]) -> (r: Result<
        Self,
        MadError,
    >)
        requires
            mad_v1@.len() == 32,
            (gpb_decoded(general_purpose_byte) matches Ok((_, version)) && version == MadVersion::V2)
                ==> mad_v2@.len() == 48,
        ensures
            r matches Ok(d) ==> mad_decoded(general_purpose_byte, mad_v1@, mad_v2@) == Ok::<
                MadView,
                MadError,
            >(d@) && d@.wf(),
            r matches Err(e) ==> mad_decoded(general_purpose_byte, mad_v1@, mad_v2@) == Err::<
                MadView,
                MadError,
            >(e),
            general_purpose_byte == 0x69 ==> r matches Err(MadError::NotPersonalized),
    {
        let (multi_application_card, mad_version) = match decode_general_purpose_byte(
            general_purpose_byte,
        ) {
            Ok(fields) => fields,
            Err(e) => return Err(e),
        };
        let mut applications = empty_applications();
        let cps_v1 = match Self::decode_mad_v1(mad_v1, &mut applications) {
            Ok(cps) => cps,
            Err(e) => return Err(e),
        };
        let ghost apps_v1 = application_entries(applications);
        let card_publisher_sector = if mad_version == MadVersion::V2 {
            match Self::decode_mad_v2(mad_v2, cps_v1, &mut applications) {
                Ok(cps) => cps,
                Err(e) => return Err(e),
            }
        } else {
            cps_v1
        };
        proof {
            Self::lemma_decoded_wf(general_purpose_byte, mad_v1@, mad_v2@);
        }
        Ok(MifareApplicationDirectory {
            multi_application_card,
            mad_version,
            card_publisher_sector,
            applications,
        })
    }

    /// A decoded directory meets the directory invariants.
    proof fn lemma_decoded_wf(gpb: u8, mad_v1: Seq<u8>, mad_v2: Seq<u8>)
        ensures
            mad_decoded(gpb, mad_v1, mad_v2) matches Ok(v) ==> v.wf(),
    {
        if mad_decoded(gpb, mad_v1, mad_v2) is Ok {
            let version = gpb_decoded(gpb)->Ok_0.1;
            let cps_v1 = mad_v1_decoded(mad_v1)->Ok_0.0;
            let apps_v1 = mad_v1_decoded(mad_v1)->Ok_0.1;
            lemma_slots_decoded_wf(mad_v1, 1, 15);
            assert(apps_v1 == slots_decoded(mad_v1, 1, 15)->Ok_0);
            let info_byte = mad_v1[1];
            assert(info_byte & 0x0F <= 15) by (bit_vector);
            assert(cps_v1 matches Some(c) ==> is_non_mad(c) && c <= 15);
            let v = mad_decoded(gpb, mad_v1, mad_v2)->Ok_0;
            if version == MadVersion::V1 {
                assert(v.applications == apps_v1);
                assert(v.card_publisher_sector == cps_v1);
                assert(v.wf());
            } else {
                let cps = mad_v2_decoded(mad_v2, cps_v1)->Ok_0.0;
                let apps_v2 = mad_v2_decoded(mad_v2, cps_v1)->Ok_0.1;
                lemma_slots_decoded_wf(mad_v2, 17, 23);
                assert(apps_v2 == slots_decoded(mad_v2, 17, 23)->Ok_0);
                let all = apps_v1.union_prefer_right(apps_v2);
                assert forall|k: u8| #[trigger] all.contains_key(k) implies is_non_mad(k) && all[k]
                    != free_aid() && all[k].wf() by {
                    if apps_v2.contains_key(k) {
                        assert(all[k] == apps_v2[k]);
                    } else {
                        assert(all[k] == apps_v1[k]);
                    }
                }
                assert(cps matches Some(c) ==> is_non_mad(c));
                assert(v.applications == all);
                assert(v.card_publisher_sector == cps);
                assert(all.dom() =~= apps_v1.dom().union(apps_v2.dom()));
                assert(v.applications.dom().finite());
                assert(v.wf());
            }
        }
    }
}

impl MifareApplicationDirectory {
    /// Builds a directory, checking the invariants of MADv1: a Card Publisher Sector and
    /// applications no further than sector 15. Free entries are dropped; of two entries for one
    /// sector the later one counts.
    pub fn new(
        multi_application_card: bool,
        mad_version: MadVersion,
        card_publisher_sector: Option<NonMadSector>,
        applications: Vec<(NonMadSector, MadAid)>,
    ) -> (r: Result<Self, MadError>)
        ensures
            r matches Ok(d) ==> mad_built(
                multi_application_card,
                mad_version,
                card_publisher_sector,
                applications@,
            ) == Ok::<MadView, MadError>(d@),
            r matches Err(e) ==> mad_built(
                multi_application_card,
                mad_version,
                card_publisher_sector,
                applications@,
            ) == Err::<MadView, MadError>(e),
            r matches Ok(d) ==> (forall|i: int|
                0 <= i < applications@.len() ==> #[trigger] applications@[i].1.wf()) ==> d@.wf(),
    {
        // A MADv1 Card Publisher Sector is four bits wide, and sector 0 means none.
        if let Some(cps) = card_publisher_sector {
            let c = cps.to_u8();
            if mad_version == MadVersion::V1 && c > 15 {
                return Err(MadError::InvalidCardPublisherSectorForMadV1(cps.to_sector()));
            }
        }
        let mut map = empty_applications();
        let mut i: usize = 0;
        while i < applications.len()
            invariant
                i <= applications@.len(),
                !(mad_version == MadVersion::V1 && (card_publisher_sector matches Some(c)
                    && c.value() > 15)),
                card_publisher_sector matches Some(c) ==> is_non_mad(c.value()),
                mad_version == MadVersion::V1 ==> first_beyond_v1(applications@, i as int) is None,
                application_entries(map) == applications_of(applications@.subrange(0, i as int)),
                keys_once(map),
                forall|k: u8| #[trigger] application_entries(map).contains_key(k) ==> is_non_mad(k),
                forall|k: u8| #[trigger]
                    application_entries(map).contains_key(k) ==> application_entries(map)[k]
                        != free_aid(),
                forall|k: u8| #[trigger]
                    application_entries(map).contains_key(k) ==> exists|j: int|
                        0 <= j < i && applications@[j].0.value() == k && #[trigger] applications@[j].1
                            == application_entries(map)[k],
                mad_version == MadVersion::V1 ==> forall|k: u8| #[trigger]
                    application_entries(map).contains_key(k) ==> k <= 15,
            decreases applications@.len() - i,
        {
            let (sector, aid) = applications[i];
            let ghost prefix = applications@.subrange(0, i as int);
            assert(applications@.subrange(0, i + 1).drop_last() =~= prefix);
            if aid != MadAid::CardAdministration(AdministrationCode::Free) {
                let k = sector.to_u8();
                if mad_version == MadVersion::V1 && k > 15 {
                    proof {
                        assert(applications@[i as int] == (sector, aid));
                        assert(first_beyond_v1(applications@, i as int + 1) == Some(
                            sector.sector(),
                        ));
                        Self::lemma_first_beyond_v1_stays(applications@, i as int + 1);
                    }
                    return Err(MadError::InvalidApplicationSectorForMadV1(sector.to_sector()));
                }
                proof {
                    if !application_entries(map).contains_key(k) {
                        lemma_room_for(application_entries(map).dom(), k);
                    }
                }
                let inserted = insert_application(&mut map, k, aid);
                assert(inserted);
            }
            i += 1;
        }
        assert(applications@.subrange(0, applications@.len() as int) =~= applications@);
        Ok(
            MifareApplicationDirectory {
                multi_application_card,
                mad_version,
                card_publisher_sector,
                applications: map,
            },
        )
    }

    /// Once an entry beyond sector 15 has been found, it stays the first one.
    proof fn lemma_first_beyond_v1_stays(list: Seq<(NonMadSector, MadAid)>, n: int)
        requires
            0 <= n <= list.len(),
            first_beyond_v1(list, n) is Some,
        ensures
            first_beyond_v1(list, list.len() as int) == first_beyond_v1(list, n),
        decreases list.len() - n,
    {
        if n < list.len() {
            Self::lemma_first_beyond_v1_stays(list, n + 1);
        }
    }
}

impl MifareApplicationDirectory {
    /// The info byte: the Card Publisher Sector, or zero.
    fn info_byte(&self) -> (r: u8)
        ensures
            r == info_encoded(self@),
    {
        match self.card_publisher_sector {
            Some(cps) => cps.to_u8(),
            None => 0,
        }
    }

    /// Blocks 1 to 3 of sector 0 as written for this directory: CRC, info byte, the slots of
    /// sectors 1 to 15, then key A, the access bits, the General Purpose Byte and key B.
    pub fn encode_sector_0(&self) -> (r: Vec<u8>)
        ensures
            r@ == sector_0_encoded(self@),
            r@.len() == 48,
    {
        let mut body: Vec<u8> = Vec::new();
        body.push(self.info_byte());
        encode_slots(&self.applications, 1, 15, &mut body);
        let mut out: Vec<u8> = Vec::new();
        out.push(crc8(body.as_slice()));
        append_slice(&mut out, body.as_slice());
        let gpb = encode_general_purpose_byte(self.multi_application_card, self.mad_version);
        append_trailer(&mut out, gpb);
        proof {
            assert(body@ =~= seq![info_encoded(self@)] + slots_encoded(self@.applications, 1, 15));
            assert(out@ =~= sector_0_encoded(self@));
        }
        out
    }

    /// Blocks 0 to 3 of sector 16 as written for this directory: CRC, info byte, the slots of
    /// sectors 17 to 39, then key A, the access bits, the General Purpose Byte and key B.
    pub fn encode_sector_16(&self) -> (r: Vec<u8>)
        ensures
            r@ == sector_16_encoded(self@),
            r@.len() == 64,
    {
        let mut body: Vec<u8> = Vec::new();
        body.push(self.info_byte());
        encode_slots(&self.applications, 17, 23, &mut body);
        let mut out: Vec<u8> = Vec::new();
        out.push(crc8(body.as_slice()));
        append_slice(&mut out, body.as_slice());
        let gpb = encode_general_purpose_byte(self.multi_application_card, self.mad_version);
        append_trailer(&mut out, gpb);
        proof {
            assert(body@ =~= seq![info_encoded(self@)] + slots_encoded(self@.applications, 17, 23));
            assert(out@ =~= sector_16_encoded(self@));
        }
        out
    }

    /// Blocks 1, 2 and 3 of sector 0 as written for this directory.
    pub fn sector_0_blocks(&self) -> (r: ([u8; 16], [u8; 16], [u8; 16]))
        ensures
            r.0@ == sector_0_encoded(self@).subrange(0, 16),
            r.1@ == sector_0_encoded(self@).subrange(16, 32),
            r.2@ == sector_0_encoded(self@).subrange(32, 48),
    {
        let data = self.encode_sector_0();
        (block_at(&data, 0), block_at(&data, 16), block_at(&data, 32))
    }

    /// Blocks 0, 1, 2 and 3 of sector 16 as written for a MADv2 directory.
    pub fn sector_16_blocks(&self) -> (r: ([u8; 16], [u8; 16], [u8; 16], [u8; 16]))
        ensures
            r.0@ == sector_16_encoded(self@).subrange(0, 16),
            r.1@ == sector_16_encoded(self@).subrange(16, 32),
            r.2@ == sector_16_encoded(self@).subrange(32, 48),
            r.3@ == sector_16_encoded(self@).subrange(48, 64),
    {
        let data = self.encode_sector_16();
        (block_at(&data, 0), block_at(&data, 16), block_at(&data, 32), block_at(&data, 48))
    }

    /// Writes the directory: blocks 1 to 3 of sector 0 (never the manufacturer block 0) and, for
    /// MADv2, blocks 0 to 3 of sector 16, each sector after authenticating through the key
    /// provider, which is expected to supply key B.
    pub fn write_to_tag<T: Tag, K: KeyProvider>(&self, tag: &mut T, key_provider: &K) -> (r: Result<
        (),
        MadError,
    >)
        ensures
            r matches Err(e) ==> e is TagError,
    {
        let mad_v1_sector = FourBlockSector::S0;
        if let Err(e) = key_provider.authenticate(tag, Sector::FourBlock(mad_v1_sector)) {
            return Err(MadError::TagError(e));
        }
        let (block_1, block_2, block_3) = self.sector_0_blocks();
        if let Err(e) = tag.write_block(mad_v1_sector.block(FourBlockOffset::B1), block_1) {
            return Err(MadError::TagError(e));
        }
        if let Err(e) = tag.write_block(mad_v1_sector.block(FourBlockOffset::B2), block_2) {
            return Err(MadError::TagError(e));
        }
        if let Err(e) = tag.write_block(mad_v1_sector.block(FourBlockOffset::B3), block_3) {
            return Err(MadError::TagError(e));
        }
        if self.mad_version == MadVersion::V2 {
            let mad_v2_sector = FourBlockSector::S16;
            if let Err(e) = key_provider.authenticate(tag, Sector::FourBlock(mad_v2_sector)) {
                return Err(MadError::TagError(e));
            }
            let (block_0, block_1, block_2, block_3) = self.sector_16_blocks();
            if let Err(e) = tag.write_block(mad_v2_sector.block(FourBlockOffset::B0), block_0) {
                return Err(MadError::TagError(e));
            }
            if let Err(e) = tag.write_block(mad_v2_sector.block(FourBlockOffset::B1), block_1) {
                return Err(MadError::TagError(e));
            }
            if let Err(e) = tag.write_block(mad_v2_sector.block(FourBlockOffset::B2), block_2) {
                return Err(MadError::TagError(e));
            }
            if let Err(e) = tag.write_block(mad_v2_sector.block(FourBlockOffset::B3), block_3) {
                return Err(MadError::TagError(e));
            }
        }
        Ok(())
    }

    /// Reads the block at `offset` of a four-block sector.
    fn read_block_at<T: Tag>(tag: &mut T, sector: FourBlockSector, offset: FourBlockOffset) -> (r:
        Result<[u8; 16], MadError>)
        ensures
            r matches Err(e) ==> e is TagError,
    {
        match tag.read_block(sector.block(offset)) {
            Ok(block) => Ok(block),
            Err(e) => Err(MadError::TagError(e)),
        }
    }

    /// Checks the CRC and the slots of the 32 bytes of MADv1 data.
    fn check_mad_v1(mad_v1: &[u8]) -> (r: Result<(), MadError>)
        requires
            mad_v1@.len() == 32,
        ensures
            r is Ok <==> mad_v1_decoded(mad_v1@) is Ok,
            r matches Err(e) ==> mad_v1_decoded(mad_v1@) == Err::<
                (Option<u8>, Map<u8, MadAid>),
                MadError,
            >(e),
    {
        let mut applications = empty_applications();
        match Self::decode_mad_v1(mad_v1, &mut applications) {
            Ok(_) => Ok(()),
            Err(e) => Err(e),
        }
    }

    /// Decodes the General Purpose Byte, byte 9 of block 3 of sector 0, into the version.
    pub fn check_trailer(block_3: &[u8; 16]) -> (r: Result<MadVersion, MadError>)
        ensures
            r matches Ok(v) ==> (gpb_decoded(block_3@[9]) matches Ok((_, w)) && w == v),
            r matches Err(e) ==> forall|
                b1: Seq<u8>,
                b2: Seq<u8>,
                c0: Seq<u8>,
                c1: Seq<u8>,
                c2: Seq<u8>,
            |
                #[trigger] mad_from_blocks(b1, b2, block_3@, c0, c1, c2) == Err::<MadView, MadError>(
                    e,
                ),
    {
        match decode_general_purpose_byte(block_3[9]) {
            Ok((_, version)) => Ok(version),
            Err(e) => Err(e),
        }
    }

    /// Checks blocks 1 to 3 of sector 0: the General Purpose Byte, then the CRC and the slots of
    /// the MADv1 data in blocks 1 and 2.
    pub fn check_sector_0(block_1: &[u8; 16], block_2: &[u8; 16], block_3: &[u8; 16]) -> (r: Result<
        MadVersion,
        MadError,
    >)
        ensures
            r matches Ok(v) ==> (gpb_decoded(block_3@[9]) matches Ok((_, w)) && w == v),
            r is Ok ==> mad_v1_decoded(block_1@ + block_2@) is Ok,
            r matches Err(e) ==> forall|c0: Seq<u8>, c1: Seq<u8>, c2: Seq<u8>|
                #[trigger] mad_from_blocks(block_1@, block_2@, block_3@, c0, c1, c2) == Err::<
                    MadView,
                    MadError,
                >(e),
    {
        let version = match Self::check_trailer(block_3) {
            Ok(version) => version,
            Err(e) => return Err(e),
        };
        let mut mad_v1: Vec<u8> = Vec::new();
        append_array(&mut mad_v1, block_1);
        append_array(&mut mad_v1, block_2);
        match Self::check_mad_v1(mad_v1.as_slice()) {
            Ok(()) => Ok(version),
            Err(e) => Err(e),
        }
    }

    /// Decodes a directory from blocks 1 to 3 of sector 0 and blocks 0 to 2 of sector 16; the
    /// latter are read only for MADv2.
    pub fn decode_blocks(
        block_1: &[u8; 16],
        block_2: &[u8; 16],
        block_3: &[u8; 16],
        block_16_0: &[u8; 16],
        block_16_1: &[u8; 16],
        block_16_2: &[u8; 16],
    ) -> (r: Result<Self, MadError>)
        ensures
            r matches Ok(d) ==> mad_from_blocks(
                block_1@,
                block_2@,
                block_3@,
                block_16_0@,
                block_16_1@,
                block_16_2@,
            ) == Ok::<MadView, MadError>(d@) && d@.wf(),
            r matches Err(e) ==> mad_from_blocks(
                block_1@,
                block_2@,
                block_3@,
                block_16_0@,
                block_16_1@,
                block_16_2@,
            ) == Err::<MadView, MadError>(e),
    {
        let mut mad_v1: Vec<u8> = Vec::new();
        append_array(&mut mad_v1, block_1);
        append_array(&mut mad_v1, block_2);
        let mut mad_v2: Vec<u8> = Vec::new();
        append_array(&mut mad_v2, block_16_0);
        append_array(&mut mad_v2, block_16_1);
        append_array(&mut mad_v2, block_16_2);
        Self::decode(block_3[9], mad_v1.as_slice(), mad_v2.as_slice())
    }

    /// Reads the directory of a tag: authenticates sector 0 through the key provider, decodes
    /// the General Purpose Byte, checks the MADv1 data and, for MADv2, authenticates sector 16
    /// and reads the MADv2 data; then decodes the blocks read. The first failure is returned:
    /// one of the tag or the key provider, or the one that decoding the blocks gives.
    pub fn read_from_tag<T: Tag, K: KeyProvider>(tag: &mut T, key_provider: &K) -> (r: Result<
        Self,
        MadError,
    >)
        ensures
            r matches Ok(d) ==> d@.wf() && exists|
                b1: Seq<u8>,
                b2: Seq<u8>,
                b3: Seq<u8>,
                c0: Seq<u8>,
                c1: Seq<u8>,
                c2: Seq<u8>,
            |
                b3.len() == 16 && #[trigger] mad_from_blocks(b1, b2, b3, c0, c1, c2) == Ok::<
                    MadView,
                    MadError,
                >(d@),
            r matches Err(e) ==> (e is TagError || exists|
                b1: Seq<u8>,
                b2: Seq<u8>,
                b3: Seq<u8>,
                c0: Seq<u8>,
                c1: Seq<u8>,
                c2: Seq<u8>,
            |
                b3.len() == 16 && #[trigger] mad_from_blocks(b1, b2, b3, c0, c1, c2) == Err::<
                    MadView,
                    MadError,
                >(e)),
    {
        let mad_v1_sector = FourBlockSector::S0;
        if let Err(e) = key_provider.authenticate(tag, Sector::FourBlock(mad_v1_sector)) {
            return Err(MadError::TagError(e));
        }
        // Block 3 holds the keys, the access bits and the General Purpose Byte.
        let block_3 = match Self::read_block_at(tag, mad_v1_sector, FourBlockOffset::B3) {
            Ok(block) => block,
            Err(e) => return Err(e),
        };
        let zero = [0u8; 16];
        let mad_version = match Self::check_trailer(&block_3) {
            Ok(version) => version,
            Err(e) => {
                assert(mad_from_blocks(zero@, zero@, block_3@, zero@, zero@, zero@) == Err::<
                    MadView,
                    MadError,
                >(e));
                return Err(e);
            },
        };
        // Blocks 1 and 2 hold the CRC, the info byte and the slots of sectors 1 to 15.
        let block_1 = match Self::read_block_at(tag, mad_v1_sector, FourBlockOffset::B1) {
            Ok(block) => block,
            Err(e) => return Err(e),
        };
        let block_2 = match Self::read_block_at(tag, mad_v1_sector, FourBlockOffset::B2) {
            Ok(block) => block,
            Err(e) => return Err(e),
        };
        // The MADv1 data is checked before sector 16 is touched.
        if let Err(e) = Self::check_sector_0(&block_1, &block_2, &block_3) {
            assert(mad_from_blocks(block_1@, block_2@, block_3@, zero@, zero@, zero@) == Err::<
                MadView,
                MadError,
            >(e));
            return Err(e);
        }
        let (block_16_0, block_16_1, block_16_2) = if mad_version == MadVersion::V2 {
            let mad_v2_sector = FourBlockSector::S16;
            if let Err(e) = key_provider.authenticate(tag, Sector::FourBlock(mad_v2_sector)) {
                return Err(MadError::TagError(e));
            }
            // Blocks 0 to 2 of sector 16 hold the CRC, the info byte and the slots of sectors
            // 17 to 39.
            let block_16_0 = match Self::read_block_at(tag, mad_v2_sector, FourBlockOffset::B0) {
                Ok(block) => block,
                Err(e) => return Err(e),
            };
            let block_16_1 = match Self::read_block_at(tag, mad_v2_sector, FourBlockOffset::B1) {
                Ok(block) => block,
                Err(e) => return Err(e),
            };
            let block_16_2 = match Self::read_block_at(tag, mad_v2_sector, FourBlockOffset::B2) {
                Ok(block) => block,
                Err(e) => return Err(e),
            };
            (block_16_0, block_16_1, block_16_2)
        } else {
            (zero, zero, zero)
        };
        Self::decode_blocks(&block_1, &block_2, &block_3, &block_16_0, &block_16_1, &block_16_2)
    }
}

impl MifareApplicationDirectory {
    /// The applications of the directory with their sectors, each sector once.
    pub fn iter_applications(&self) -> (r: Vec<(NonMadSector, MadAid)>)
        ensures
            forall|i: int|
                0 <= i < r@.len() ==> self@.applications.contains_key((#[trigger] r@[i]).0.value())
                    && self@.applications[r@[i].0.value()] == r@[i].1,
            forall|k: u8| #[trigger]
                self@.applications.contains_key(k) ==> exists|i: int|
                    0 <= i < r@.len() && (#[trigger] r@[i]).0.value() == k,
            forall|i: int, j: int|
                0 <= i < r@.len() && 0 <= j < r@.len() && i != j ==> (#[trigger] r@[i]).0.value()
                    != (#[trigger] r@[j]).0.value(),
    {
        proof {
            use_type_invariant(self);
        }
        let entries = application_list(&self.applications);
        let ghost m = application_entries(self.applications);
        let mut out: Vec<(NonMadSector, MadAid)> = Vec::new();
        let mut i: usize = 0;
        while i < entries.len()
            invariant
                i <= entries@.len(),
                out@.len() == i,
                m == application_entries(self.applications),
                forall|k: u8| #[trigger] m.contains_key(k) ==> is_non_mad(k),
                forall|j: int|
                    0 <= j < entries@.len() ==> m.contains_key(#[trigger] entries@[j].0)
                        && m[entries@[j].0] == entries@[j].1,
                forall|j: int|
                    0 <= j < i ==> (#[trigger] out@[j]).0.value() == entries@[j].0 && out@[j].1
                        == entries@[j].1,
            decreases entries@.len() - i,
        {
            let (sector, aid) = entries[i];
            out.push((NonMadSector::from_u8(sector), aid));
            i += 1;
        }
        proof {
            assert forall|k: u8| #[trigger] m.contains_key(k) implies exists|l: int|
                0 <= l < out@.len() && (#[trigger] out@[l]).0.value() == k by {
                let j = choose|j: int| 0 <= j < entries@.len() && (#[trigger] entries@[j]).0 == k;
                assert(out@[j].0.value() == k);
            }
            assert forall|a: int, b: int|
                0 <= a < out@.len() && 0 <= b < out@.len() && a != b implies (#[trigger] out@[a]).0.value()
                    != (#[trigger] out@[b]).0.value() by {
                assert(entries@[a].0 != entries@[b].0);
            }
        }
        out
    }
}

/// The entries of `apps` for sectors `first` to `first + n - 1`.
pub open spec fn applications_between(apps: Map<u8, MadAid>, first: int, n: int) -> Map<u8, MadAid> {
    apps.restrict(Set::new(|k: u8| first <= k < first + n))
}

/// Decoding encoded slots gives back the applications they cover.
proof fn lemma_slots_round_trip(apps: Map<u8, MadAid>, data: Seq<u8>, first: int, n: nat, m: nat)
    requires
        m <= n,
        1 <= first,
        first + n <= 40,
        data.len() >= 2 + 2 * n,
        forall|i: int| 0 <= i < 2 * n ==> data[2 + i] == #[trigger] slots_encoded(apps, first, n)[i],
        forall|k: u8| #[trigger]
            apps.contains_key(k) ==> apps[k] != free_aid() && apps[k].wf(),
    ensures
        slots_decoded(data, first, m) == Ok::<Map<u8, MadAid>, MadError>(
            applications_between(apps, first, m as int),
        ),
    decreases m,
{
    if m == 0 {
        assert(applications_between(apps, first, 0) =~= Map::empty());
    } else {
        let j = m - 1;
        lemma_slots_round_trip(apps, data, first, n, (m - 1) as nat);
        let aid = aid_for(apps, first + j);
        let enc = slots_encoded(apps, first, n);
        assert(enc[2 * j] == aid.bytes().1);
        assert(enc[2 * j + 1] == aid.bytes().0);
        assert(data[2 + 2 * j] == enc[2 * j]);
        assert(data[3 + 2 * j] == enc[2 * j + 1]);
        aid.lemma_bytes_round_trip();
        let k = (first + j) as u8;
        if aid == free_aid() {
            assert(!apps.contains_key(k));
            assert(applications_between(apps, first, m as int) =~= applications_between(
                apps,
                first,
                j,
            ));
        } else {
            assert(applications_between(apps, first, m as int) =~= applications_between(
                apps,
                first,
                j,
            ).insert(k, aid));
        }
    }
}

/// Writing a well-formed directory and reading the written bytes back gives the same
/// directory: the General Purpose Byte is byte 9 of block 3 of sector 0, the MADv1 data blocks
/// 1 and 2 of sector 0, the MADv2 data blocks 0 to 2 of sector 16.
pub proof fn lemma_round_trip(v: MadView)
    requires
        v.wf(),
    ensures
        mad_decoded(
            sector_0_encoded(v)[41],
            sector_0_encoded(v).subrange(0, 32),
            sector_16_encoded(v).subrange(0, 48),
        ) == Ok::<MadView, MadError>(v),
{
    let s0 = sector_0_encoded(v);
    let s16 = sector_16_encoded(v);
    let gpb = gpb_encoded(v.multi_application_card, v.mad_version);
    let info = info_encoded(v);
    let body_v1 = seq![info] + slots_encoded(v.applications, 1, 15);
    let body_v2 = seq![info] + slots_encoded(v.applications, 17, 23);
    let v1 = s0.subrange(0, 32);
    let v2 = s16.subrange(0, 48);
    assert(s0[41] == gpb);
    crate::mifare::mad_codec::lemma_gpb_round_trip(v.multi_application_card, v.mad_version);
    assert(v1 =~= with_crc(body_v1));
    assert(v2 =~= with_crc(body_v2));
    assert(v1.subrange(1, 32) =~= body_v1);
    assert(v2.subrange(1, 48) =~= body_v2);
    assert forall|i: int| 0 <= i < 30 implies v1[2 + i] == #[trigger] slots_encoded(
        v.applications,
        1,
        15,
    )[i] by {
        assert(v1[2 + i] == body_v1[1 + i]);
    }
    assert forall|i: int| 0 <= i < 46 implies v2[2 + i] == #[trigger] slots_encoded(
        v.applications,
        17,
        23,
    )[i] by {
        assert(v2[2 + i] == body_v2[1 + i]);
    }
    lemma_slots_round_trip(v.applications, v1, 1, 15, 15);
    lemma_slots_round_trip(v.applications, v2, 17, 23, 23);
    let apps_v1 = applications_between(v.applications, 1, 15);
    let apps_v2 = applications_between(v.applications, 17, 23);
    assert(v1[1] == info);
    assert(v2[1] == info);
    assert(info <= 39);
    assert(info <= 39 ==> info & 0x3F == info) by (bit_vector);
    assert(info <= 15 ==> info & 0x0F == info) by (bit_vector);
    if v.mad_version == MadVersion::V1 {
        assert(apps_v1 =~= v.applications);
    } else {
        assert(apps_v1.union_prefer_right(apps_v2) =~= v.applications);
        if info == 0 {
            assert(info & 0x0F == 0) by (bit_vector)
                requires
                    info == 0,
            ;
        }
    }
}

/// Flipping any bit of the 31 bytes that the MADv1 CRC covers makes reading fail with
/// `CrcMismatch`, once the General Purpose Byte has been accepted.
pub proof fn lemma_mad_v1_bit_flip_rejected(
    gpb: u8,
    mad_v1: Seq<u8>,
    mad_v2: Seq<u8>,
    i: int,
    bit: u8,
)
    requires
        mad_v1.len() == 32,
        gpb_decoded(gpb) is Ok,
        mad_v1[0] == crc8_spec(mad_v1.subrange(1, 32)),
        1 <= i < 32,
        bit < 8,
    ensures
        mad_decoded(gpb, mad_v1.update(i, mad_v1[i] ^ (1u8 << bit)), mad_v2) matches Err(
            MadError::CrcMismatch,
        ),
{
    let flipped = mad_v1.update(i, mad_v1[i] ^ (1u8 << bit));
    let covered = mad_v1.subrange(1, 32);
    assert(flipped.subrange(1, 32) =~= covered.update(i - 1, covered[i - 1] ^ (1u8 << bit)));
    crate::mifare::crc::lemma_crc8_detects_bit_flip(covered, i - 1, bit);
}

/// Flipping any bit of the 47 bytes that the MADv2 CRC covers makes reading a MADv2 directory
/// fail with `CrcMismatch`, once the General Purpose Byte and the MADv1 data have been accepted.
pub proof fn lemma_mad_v2_bit_flip_rejected(
    gpb: u8,
    mad_v1: Seq<u8>,
    mad_v2: Seq<u8>,
    i: int,
    bit: u8,
)
    requires
        mad_v1.len() == 32,
        mad_v2.len() == 48,
        gpb_decoded(gpb) matches Ok((_, version)) && version == MadVersion::V2,
        mad_v1_decoded(mad_v1) is Ok,
        mad_v2[0] == crc8_spec(mad_v2.subrange(1, 48)),
        1 <= i < 48,
        bit < 8,
    ensures
        mad_decoded(gpb, mad_v1, mad_v2.update(i, mad_v2[i] ^ (1u8 << bit))) matches Err(
            MadError::CrcMismatch,
        ),
{
    let flipped = mad_v2.update(i, mad_v2[i] ^ (1u8 << bit));
    let covered = mad_v2.subrange(1, 48);
    assert(flipped.subrange(1, 48) =~= covered.update(i - 1, covered[i - 1] ^ (1u8 << bit)));
    crate::mifare::crc::lemma_crc8_detects_bit_flip(covered, i - 1, bit);
}

/// Which sectors can be the Card Publisher Sector: never 0 or 16; up to 15 in MADv1; up to 39
/// in MADv2; never 40 or above.
pub proof fn lemma_card_publisher_sector_bounds(
    multi_application_card: bool,
    cps: NonMadSector,
    list: Seq<(NonMadSector, MadAid)>,
    info: u8,
    cps_v1: Option<u8>,
)
    ensures
        !is_non_mad(0) && !is_non_mad(16) && is_non_mad(15) && is_non_mad(39),
        forall|n: u8| n >= 40 ==> !is_non_mad(n),
        cps_v1_decoded(info) matches Some(c) ==> 1 <= c <= 15,
        cps_v1_decoded(15) == Some(15u8),
        info & 0x3F == 16 ==> cps_v2_decoded(info, cps_v1) matches Err(
            MadError::InvalidCardPublisherSector,
        ),
        info & 0x3F >= 40 ==> cps_v2_decoded(info, cps_v1) matches Err(
            MadError::InvalidCardPublisherSector,
        ),
        cps_v2_decoded(39, cps_v1) == Ok::<Option<u8>, MadError>(Some(39u8)),
        cps.value() <= 15 ==> mad_built(
            multi_application_card,
            MadVersion::V1,
            Some(cps),
            Seq::empty(),
        ) is Ok,
        cps.value() > 15 ==> mad_built(
            multi_application_card,
            MadVersion::V1,
            Some(cps),
            list,
        ) matches Err(MadError::InvalidCardPublisherSectorForMadV1(_)),
        mad_built(multi_application_card, MadVersion::V2, Some(cps), list) is Ok,
{
    assert(info & 0x0F <= 15) by (bit_vector);
    assert(15u8 & 0x0F == 15) by (bit_vector);
    assert(39u8 & 0x3F == 39) by (bit_vector);
}

/// The round trip at the level of blocks: the blocks written for a well-formed directory
/// decode to that directory.
pub proof fn lemma_round_trip_blocks(v: MadView)
    requires
        v.wf(),
    ensures
        mad_from_blocks(
            sector_0_encoded(v).subrange(0, 16),
            sector_0_encoded(v).subrange(16, 32),
            sector_0_encoded(v).subrange(32, 48),
            sector_16_encoded(v).subrange(0, 16),
            sector_16_encoded(v).subrange(16, 32),
            sector_16_encoded(v).subrange(32, 48),
        ) == Ok::<MadView, MadError>(v),
{
    let s0 = sector_0_encoded(v);
    let s16 = sector_16_encoded(v);
    lemma_round_trip(v);
    assert(s0.subrange(0, 16) + s0.subrange(16, 32) =~= s0.subrange(0, 32));
    assert(s16.subrange(0, 16) + s16.subrange(16, 32) + s16.subrange(32, 48) =~= s16.subrange(
        0,
        48,
    ));
    assert(s0.subrange(32, 48)[9] == s0[41]);
}

} // verus!
