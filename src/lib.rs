//! MIFARE Classic addressing and the MIFARE Application Directory (MAD) codec.
use vstd::prelude::*;

pub mod error;
pub mod mifare;
pub mod mifare_classic;
pub mod mifare_classic_error;
pub mod transport;

pub use transport::RfidTransport;

verus! {

/// Sum of two integers.
pub fn add(left: u64, right: u64) -> (r: u64)
    requires
        left + right <= u64::MAX,
    ensures
        r == left + right,
{
    left + right
}

} // verus!
