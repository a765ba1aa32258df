use vstd::prelude::*;

use crate::error::RfidError;

verus! {

/// A half-duplex byte transport to an RFID reader.
pub trait RfidTransport {
    /// Sends `req` and fills `resp` with the answer, returning how many bytes were received.
    fn transceive(&mut self, req: &[u8], resp: &mut [u8]) -> Result<usize, RfidError>;
}

} // verus!
