pub mod application_directory;
pub mod block;
pub mod card_publisher_sector;
pub mod classic;
pub mod classic_address;
pub mod crc;
pub mod mad_application_id;
pub mod mad_codec;
pub mod mifare_application_directory;
pub mod non_mad_sector;
pub mod sector;
pub mod tag;
