use vstd::prelude::*;

verus! {

/// Why a sensor read failed.
#[derive(Debug)]
pub enum Error {
    /// A write to or a read from the bus failed.
    Transport,
    /// The checksum computed over the signal bytes (`expected`) differs from
    /// the one the device sent (`actual`); `data` holds the signal bytes.
    ChecksumError { expected: u32, actual: u32, data: Vec<u8> },
}

} // verus!
