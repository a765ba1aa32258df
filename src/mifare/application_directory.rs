//! The MIFARE Application Directory: which application owns which sector.
pub use crate::mifare::card_publisher_sector::{CardPublisherSector, CardPublisherSectorError};
pub use crate::mifare::crc::crc8;
pub use crate::mifare::mad_application_id::{
    AdministrationCode, FunctionCluster, MadAid, MadAidError,
};
pub use crate::mifare::mad_codec::{
    decode_general_purpose_byte, encode_general_purpose_byte, MadError, MadVersion,
    MAD_ACCESS_BITS, MAD_KEY_A, MAD_KEY_B,
};
pub use crate::mifare::mifare_application_directory::{MadView, MifareApplicationDirectory};
pub use crate::mifare::non_mad_sector::{NonMadSector, NonMadSectorError};
