//! CAN frames as the library sees them: an identifier and up to eight data
//! bytes.
use vstd::prelude::*;

verus! {

/// A CAN data frame.
#[derive(Clone, Debug, PartialEq, Eq)]
pub struct DataFrame {
    /// The frame identifier.
    pub id: u32,
    /// The payload, up to eight bytes.
    pub data: Vec<u8>,
}

impl DataFrame {
    pub fn new(id: u32, data: Vec<u8>) -> (r: Self)
        ensures
            r.id == id,
            r.data@ == data@,
    {
        DataFrame { id, data }
    }
}

/// A frame received from a CAN bus.
#[derive(Clone, Debug, PartialEq, Eq)]
pub enum CanFrame {
    /// A frame that carries data.
    DataFrame(DataFrame),
    /// A remote-transmission request for the given identifier.
    RemoteFrame(u32),
}

impl CanFrame {
    pub open spec fn id_spec(&self) -> u32 {
        match self {
            CanFrame::DataFrame(f) => f.id,
            CanFrame::RemoteFrame(id) => *id,
        }
    }

    /// The identifier of the frame.
    pub fn id(&self) -> (r: u32)
        ensures
            r == self.id_spec(),
    {
        match self {
            CanFrame::DataFrame(f) => f.id,
            CanFrame::RemoteFrame(id) => *id,
        }
    }
}

/// Why a CAN transmit or receive did not complete.
#[derive(Clone, Copy, Debug, PartialEq, Eq, Structural)]
pub enum CanError {
    /// Nothing was waiting in the receive queue: the normal idle case.
    BufferExhausted,
    /// No node acknowledged a transmission in time.
    Timeout,
    /// Any other bus fault (arbitration loss, stuffing error, ...).
    Bus,
}

/// Why a transfer to a DAC did not complete.
#[derive(Clone, Copy, Debug, PartialEq, Eq, Structural)]
pub enum SpiError {
    /// Received data was overwritten before it was read.
    Overrun,
    /// The bus was driven by another master.
    ModeFault,
    /// The transfer checksum did not match.
    Crc,
}

/// An error that reaches the main loop's error handler.
#[derive(Clone, Copy, Debug, PartialEq, Eq, Structural)]
pub enum OxccError {
    Spi(SpiError),
    Can(CanError),
}

impl From<CanError> for OxccError {
    fn from(e: CanError) -> (r: OxccError)
        ensures
            r == OxccError::Can(e),
    {
        OxccError::Can(e)
    }
}

impl vstd::std_specs::convert::FromSpecImpl<CanError> for OxccError {
    open spec fn obeys_from_spec() -> bool {
        true
    }

    open spec fn from_spec(e: CanError) -> OxccError {
        OxccError::Can(e)
    }
}

impl From<SpiError> for OxccError {
    fn from(e: SpiError) -> (r: OxccError)
        ensures
            r == OxccError::Spi(e),
    {
        OxccError::Spi(e)
    }
}

impl vstd::std_specs::convert::FromSpecImpl<SpiError> for OxccError {
    open spec fn obeys_from_spec() -> bool {
        true
    }

    open spec fn from_spec(e: SpiError) -> OxccError {
        OxccError::Spi(e)
    }
}

} // verus!
