//! MIFARE Classic memory layout and tag access.
pub use crate::mifare::block::{Block, FourBlockOffset, SixteenBlockOffset};
pub use crate::mifare::sector::{FourBlockSector, Sector, SixteenBlockSector};
pub use crate::mifare::tag::{Error, KeyProvider, KeyType, Tag, DEFAULT_KEY};
pub use crate::mifare::classic_address::{
    MifareClassic, MifareClassicBlock, MifareClassicError, MifareClassicKeyProvider,
    MifareClassicKeyType, MifareClassicSector,
};
