//! Host-side driver for the GPIO and I2C bridge functions of the USB4604 hub,
//! reached through vendor control transfers.
//!
//! Every transfer is issued through a [`UsbTransport`], and each handle keeps a
//! ghost record of the transfers it issued and what came back. The contracts
//! of the register layer, the pin state machine and the I2C bridge are stated
//! over that record, so they hold whatever the device answers.
//!
//! A device handle may be shared by several pin and bridge handles. The
//! hardware has no multi-register transactions, so interleaved
//! read-modify-write cycles on a shared register can race: keeping a single
//! writer per shared device handle is the caller's responsibility.
use vstd::prelude::*;

pub mod transport;
pub mod gpio;
pub mod i2c;
pub mod usb4604_hal;
pub mod usb4604_reg;

pub use transport::{Link, Transfer, TransferFault, UsbTransport};
pub use gpio::{FieldWrite, Flex, Input, Level, Mode, OpenDrainOutput, Pio, Plane, Pull, PushPullOutput};
pub use i2c::{I2cBridge, I2cError, I2cErrorKind, I2cFlagsAddress, Operation};
pub use usb4604_hal::Usb4604;

verus! {

/// Why opening, enumerating or claiming the device failed, by category.
#[derive(Clone, Copy, Debug, PartialEq, Eq, Structural)]
pub enum DeviceFault {
    /// The device is disconnected.
    Disconnected,
    /// The device or interface is in use elsewhere.
    Busy,
    /// The user may not open the device.
    PermissionDenied,
    /// The configuration or interface does not exist.
    NotFound,
    /// The platform does not support the operation.
    Unsupported,
    /// Any other failure.
    Other,
}

/// A typed view of one hardware register byte.
pub trait SmscReg: Sized {
    /// The register's address.
    const ADDR: u16;

    /// The register byte that this value stands for.
    spec fn spec_value(&self) -> u8;

    fn from_value(bits: u8) -> (r: Self)
        ensures
            r.spec_value() == bits,
    ;

    fn value(&self) -> (r: u8)
        ensures
            r == self.spec_value(),
    ;
}

/// Failures of the device handle, its registers and its pins.
#[derive(Debug)]
pub enum Error {
    /// A control transfer failed.
    TransferError(TransferFault),
    /// Opening or claiming the device failed.
    Nusb(DeviceFault),
    /// No matching device is attached.
    NoDevicesFound,
    /// More than one matching device is attached.
    MultipleDevicesFound,
    /// A register read did not return exactly one byte.
    ShortRead,
    /// Any other failure, described in words.
    Other(&'static str),
}

impl From<TransferFault> for Error {
    fn from(e: TransferFault) -> (r: Error)
        ensures
            r == Error::TransferError(e),
    {
        Error::TransferError(e)
    }
}

impl vstd::std_specs::convert::FromSpecImpl<TransferFault> for Error {
    open spec fn obeys_from_spec() -> bool {
        true
    }

    open spec fn from_spec(e: TransferFault) -> Error {
        Error::TransferError(e)
    }
}

} // verus!
