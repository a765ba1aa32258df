//! The capabilities the directory codec consumes: a tag and a key provider.
use vstd::prelude::*;

use crate::mifare::block::Block;
use crate::mifare::sector::Sector;

verus! {

/// Default MIFARE Classic key A and key B of a blank sector.
pub const DEFAULT_KEY: [u8; 6] = [0xFF, 0xFF, 0xFF, 0xFF, 0xFF, 0xFF];

/// Which MIFARE Classic key to use for authentication.
#[derive(Debug, Copy, Clone, PartialEq, Eq, Structural)]
pub enum KeyType {
    KeyA,
    KeyB,
}

/// Errors of MIFARE Classic operations.
#[derive(Debug)]
pub enum Error {
    /// Failed to authenticate to a sector.
    AuthenticationFailed(Sector),
    /// Invalid value for a MIFARE classic sector.
    InvalidSector(u8),
    /// Invalid value for a MIFARE classic block.
    InvalidBlock(u8),
    /// Low-level PCSC or transport error.
    TransportError(String),
}

/// Basic operations on a MIFARE Classic tag, one command at a time.
pub trait Tag {
    /// Authenticate to a specific sector on the tag using key A or B.
    fn authenticate(&mut self, sector: Sector, key: &[u8; 6], key_type: KeyType) -> Result<
        (),
        Error,
    >;

    /// Reads a 16-byte data block from the tag.
    fn read_block(&mut self, block: Block) -> Result<[u8; 16], Error>;

    /// Writes a 16-byte data block to the tag.
    fn write_block(&mut self, block: Block, data: [u8; 16]) -> Result<(), Error>;
}

/// Authenticates sectors of a tag, hiding which keys are tried and how.
pub trait KeyProvider {
    fn authenticate<T: Tag>(&self, tag: &mut T, sector: Sector) -> Result<(), Error>;
}

} // verus!
