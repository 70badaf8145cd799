//! The hub's auxiliary port as an I2C master: each operation of a
//! transaction becomes one vendor control transfer whose value field carries
//! the slave address and the START, STOP and NACK flags.
use vstd::prelude::*;

use crate::transport::{Link, Transfer, TransferFault, UsbTransport};
use crate::usb4604_hal::added;
use crate::Error;

verus! {

/// Vendor request that switches the hub into I2C passthrough.
pub const CMD_I2C_ENTER_PASSTHRU: u8 = 0x70;

/// Vendor request that writes bytes to an I2C slave.
pub const CMD_I2C_WRITE: u8 = 0x71;

/// Vendor request that reads bytes from an I2C slave.
pub const CMD_I2C_READ: u8 = 0x72;

/// Timeout of each I2C transfer, in milliseconds.
pub const I2C_TIMEOUT_MS: u64 = 100;

/// Largest 7-bit slave address.
pub const MAX_ADDRESS: u8 = 0x7F;

/// One step of an I2C transaction.
#[derive(Debug)]
pub enum Operation {
    /// Read as many bytes as the buffer holds; the bytes read replace them.
    Read(Vec<u8>),
    /// Write the bytes of the buffer.
    Write(Vec<u8>),
}

/// The bytes that an operation carries.
pub open spec fn op_bytes(op: Operation) -> Seq<u8> {
    match op {
        Operation::Read(b) => b@,
        Operation::Write(b) => b@,
    }
}

/// Every buffer fits the 16-bit length of a control transfer.
pub open spec fn ops_fit(ops: Seq<Operation>) -> bool {
    forall|j: int| 0 <= j < ops.len() ==> #[trigger] op_bytes(ops[j]).len() <= u16::MAX
}

#[derive(Clone, Copy, Debug, PartialEq, Eq, Structural)]
pub enum I2cError {
    /// The slave did not acknowledge: the device stalled the transfer.
    Nack,
    /// The address does not fit in 7 bits.
    WrongAddress,
    /// Any other transfer failure.
    Other(TransferFault),
    /// A read returned fewer or more bytes than requested.
    ShortRead,
}

/// The two kinds of I2C failure that callers tell apart.
#[derive(Clone, Copy, Debug, PartialEq, Eq, Structural)]
pub enum I2cErrorKind {
    NoAcknowledge,
    Other,
}

/// The I2C error that a failed transfer stands for: a stall is the slave's NACK.
pub open spec fn i2c_error_of(f: TransferFault) -> I2cError {
    if f == TransferFault::Stall {
        I2cError::Nack
    } else {
        I2cError::Other(f)
    }
}

impl From<TransferFault> for I2cError {
    fn from(f: TransferFault) -> (r: I2cError)
        ensures
            r == i2c_error_of(f),
    {
        match f {
            TransferFault::Stall => I2cError::Nack,
            other => I2cError::Other(other),
        }
    }
}

impl vstd::std_specs::convert::FromSpecImpl<TransferFault> for I2cError {
    open spec fn obeys_from_spec() -> bool {
        true
    }

    open spec fn from_spec(f: TransferFault) -> I2cError {
        i2c_error_of(f)
    }
}

impl I2cError {
    /// A NACK is reported as such, every other failure as `Other`.
    pub fn kind(&self) -> (r: I2cErrorKind)
        ensures
            r == if *self == I2cError::Nack { I2cErrorKind::NoAcknowledge } else { I2cErrorKind::Other },
    {
        match self {
            I2cError::Nack => I2cErrorKind::NoAcknowledge,
            _ => I2cErrorKind::Other,
        }
    }
}

/// The flags and address of one I2C transfer.
///
/// Packed into 16 bits, most significant first: the direction bit (set for
/// a read), the 7-bit slave address, STOP, START, NACK, and five zero bits.
#[derive(Clone, Copy, Debug, PartialEq, Eq, Structural)]
pub struct I2cFlagsAddress {
    pub is_read: bool,
    pub slave_addr: u8,
    pub send_stop: bool,
    pub send_start: bool,
    pub send_nack: bool,
}

pub open spec fn flag(b: bool, weight: int) -> int {
    if b {
        weight
    } else {
        0
    }
}

impl I2cFlagsAddress {
    /// The packed value.
    pub open spec fn spec_bits(self) -> int {
        flag(self.is_read, 0x8000) + self.slave_addr * 0x100 + flag(self.send_stop, 0x80) + flag(
            self.send_start,
            0x40,
        ) + flag(self.send_nack, 0x20)
    }

    pub fn into_bits(&self) -> (r: u16)
        requires
            self.slave_addr <= MAX_ADDRESS,
        ensures
            r == self.spec_bits(),
    {
        let mut v: u16 = (self.slave_addr as u16) * 0x100;
        if self.is_read {
            v = v + 0x8000;
        }
        if self.send_stop {
            v = v + 0x80;
        }
        if self.send_start {
            v = v + 0x40;
        }
        if self.send_nack {
            v = v + 0x20;
        }
        v
    }
}

/// The flags of operation `i` of `ops` against `address`: START on the first
/// operation and wherever the direction changes, STOP on the last one, NACK
/// on the last one when it is a read.
pub open spec fn frame(address: u8, ops: Seq<Operation>, i: int) -> I2cFlagsAddress {
    let is_read = ops[i] is Read;
    I2cFlagsAddress {
        is_read,
        slave_addr: address,
        send_stop: i == ops.len() - 1,
        send_start: i == 0 || is_read != (ops[i - 1] is Read),
        send_nack: is_read && i == ops.len() - 1,
    }
}

/// `t` is the transfer of operation `i` of `ops` against `address`.
pub open spec fn is_op_transfer(address: u8, ops: Seq<Operation>, i: int, t: Transfer) -> bool {
    let value = frame(address, ops, i).spec_bits();
    match ops[i] {
        Operation::Read(buf) => match t {
            Transfer::In { request, value: v, index, length, timeout_ms, .. } => request == CMD_I2C_READ
                && v == value && index == 0 && length == buf@.len() && timeout_ms == I2C_TIMEOUT_MS,
            _ => false,
        },
        Operation::Write(buf) => match t {
            Transfer::Out { request, value: v, index, data, timeout_ms, .. } => request
                == CMD_I2C_WRITE && v == value && index == 0 && data == buf@ && timeout_ms
                == I2C_TIMEOUT_MS,
            _ => false,
        },
    }
}

/// What one I2C transfer yields: a read succeeds only with exactly the
/// requested number of bytes.
pub open spec fn op_result(t: Transfer) -> Result<(), I2cError> {
    match t {
        Transfer::In { length, outcome, .. } => match outcome {
            Ok(d) => if d.len() == length {
                Ok(())
            } else {
                Err(I2cError::ShortRead)
            },
            Err(f) => Err(i2c_error_of(f)),
        },
        Transfer::Out { outcome, .. } => match outcome {
            Ok(_) => Ok(()),
            Err(f) => Err(i2c_error_of(f)),
        },
    }
}

/// The bytes that a device-to-host transfer brought.
pub open spec fn in_data(t: Transfer) -> Seq<u8> {
    match t {
        Transfer::In { outcome, .. } => match outcome {
            Ok(d) => d,
            Err(_) => Seq::empty(),
        },
        Transfer::Out { .. } => Seq::empty(),
    }
}

/// `t` is what a transaction on `ops` against `address` issued, ending with
/// `r`: one transfer per operation, in order, up to the first failure.
pub open spec fn transaction_trace(address: u8, ops: Seq<Operation>, t: Seq<Transfer>, r: Result<(), I2cError>) -> bool {
    &&& t.len() <= ops.len()
    &&& forall|j: int| 0 <= j < t.len() ==> is_op_transfer(address, ops, j, #[trigger] t[j])
    &&& forall|j: int| 0 <= j < t.len() - 1 ==> (#[trigger] op_result(t[j])) is Ok
    &&& if t.len() == ops.len() {
        r == if t.len() == 0 { Ok(()) } else { op_result(t.last()) }
    } else {
        t.len() > 0 && op_result(t.last()) is Err && r == op_result(t.last())
    }
}

/// The operations once a transaction issued `t`: each read that succeeded
/// holds the bytes read, everything else is as it was.
pub open spec fn ops_after(ops: Seq<Operation>, t: Seq<Transfer>, after: Seq<Operation>) -> bool {
    &&& after.len() == ops.len()
    &&& forall|j: int|
        0 <= j < ops.len() ==> {
            &&& (#[trigger] after[j] is Read) == (ops[j] is Read)
            &&& op_bytes(after[j]) == if j < t.len() && ops[j] is Read && op_result(t[j]) is Ok {
                in_data(t[j])
            } else {
                op_bytes(ops[j])
            }
        }
}

/// The failure that a transfer reported, if any.
pub open spec fn transfer_fault(t: Transfer) -> Option<TransferFault> {
    match t {
        Transfer::In { outcome, .. } => match outcome {
            Ok(_) => None,
            Err(f) => Some(f),
        },
        Transfer::Out { outcome, .. } => match outcome {
            Ok(_) => None,
            Err(f) => Some(f),
        },
    }
}

/// A transaction whose last transfer failed, read or write, ends with the
/// slave's NACK when that failure was a stall and with the failure itself
/// otherwise.
pub proof fn transaction_failure_kind(address: u8, ops: Seq<Operation>, t: Seq<Transfer>, r: Result<(), I2cError>)
    requires
        transaction_trace(address, ops, t, r),
        t.len() > 0,
        transfer_fault(t.last()) is Some,
    ensures
        r == Err::<(), I2cError>(if transfer_fault(t.last()) == Some(TransferFault::Stall) {
            I2cError::Nack
        } else {
            I2cError::Other(transfer_fault(t.last())->Some_0)
        }),
{
}

/// The hub in I2C passthrough mode.
pub struct I2cBridge<T: UsbTransport> {
    link: Link<T>,
}

impl<T: UsbTransport> I2cBridge<T> {
    /// The transfers issued through this bridge, oldest first.
    pub closed spec fn history(&self) -> Seq<Transfer> {
        self.link.history()
    }
}

/// `t` is the request that enters passthrough mode.
pub open spec fn is_enter_transfer(t: Transfer) -> bool {
    match t {
        Transfer::Out { request, value, index, data, timeout_ms, .. } => request == CMD_I2C_ENTER_PASSTHRU
            && value == 0 && index == 0 && data == Seq::<u8>::empty() && timeout_ms == I2C_TIMEOUT_MS,
        _ => false,
    }
}

/// What entering passthrough yields from the answer `t`.
pub open spec fn enter_result(t: Transfer) -> Result<(), Error> {
    match t {
        Transfer::Out { outcome, .. } => match outcome {
            Ok(_) => Ok(()),
            Err(f) => Err(Error::TransferError(f)),
        },
        Transfer::In { .. } => Err(Error::ShortRead),
    }
}

/// Switches the hub into I2C passthrough with one control-out request
/// without data.
pub fn enter_passthrough<T: UsbTransport>(link: &mut Link<T>) -> (r: Result<(), Error>)
    ensures
        final(link).history().len() == old(link).history().len() + 1,
        final(link).history().drop_last() == old(link).history(),
        is_enter_transfer(final(link).history().last()),
        r == enter_result(final(link).history().last()),
{
    let ghost h0 = link.history();
    let data: [u8; 0] = [];
    assert(data@ =~= Seq::<u8>::empty());
    let r = link.control_out(CMD_I2C_ENTER_PASSTHRU, 0, 0, data.as_slice(), I2C_TIMEOUT_MS);
    assert(link.history().drop_last() =~= h0);
    match r {
        Ok(()) => Ok(()),
        Err(f) => Err(Error::TransferError(f)),
    }
}

impl<T: UsbTransport + Clone> I2cBridge<T> {
    /// Enters passthrough through `link` and, on success, makes a bridge on
    /// a share of it.
    pub(crate) fn init(link: &mut Link<T>) -> (r: Result<I2cBridge<T>, Error>)
        ensures
            final(link).history().len() == old(link).history().len() + 1,
            final(link).history().drop_last() == old(link).history(),
            is_enter_transfer(final(link).history().last()),
            (r is Ok) == (enter_result(final(link).history().last()) is Ok),
            r is Err ==> enter_result(final(link).history().last()) == Err::<(), Error>(r->Err_0),
            r is Ok ==> r->Ok_0.history() == Seq::<Transfer>::empty(),
    {
        enter_passthrough(link)?;
        Ok(I2cBridge { link: link.share() })
    }
}

impl<T: UsbTransport> I2cBridge<T> {
    /// Runs `operations` against the slave at `address` as one transaction.
    ///
    /// An address above 0x7F is rejected before any transfer. Otherwise each
    /// operation is one transfer, in order, and the first failure ends the
    /// transaction: what earlier operations wrote or read stays done. A stall
    /// is reported as the slave's NACK.
    pub fn transaction(&mut self, address: u8, operations: &mut Vec<Operation>) -> (r: Result<(), I2cError>)
        requires
            ops_fit(old(operations)@),
        ensures
            address > MAX_ADDRESS ==> {
                &&& r == Err::<(), I2cError>(I2cError::WrongAddress)
                &&& final(self).history() == old(self).history()
                &&& final(operations)@ == old(operations)@
            },
            address <= MAX_ADDRESS ==> {
                &&& old(self).history().is_prefix_of(final(self).history())
                &&& transaction_trace(address, old(operations)@, added(old(self).history(), final(self).history()), r)
                &&& ops_after(old(operations)@, added(old(self).history(), final(self).history()), final(operations)@)
            },
    {
        if address > MAX_ADDRESS {
            return Err(I2cError::WrongAddress);
        }
        let ghost h0 = self.history();
        let ghost ops0 = operations@;
        let n = operations.len();
        let mut prev_is_read = false;
        let mut i: usize = 0;
        while i < n
            invariant
                n == ops0.len(),
                address <= MAX_ADDRESS,
                ops0 == old(operations)@,
                h0 == old(self).history(),
                i <= n,
                ops_fit(ops0),
                h0.is_prefix_of(self.history()),
                added(h0, self.history()).len() == i,
                forall|j: int| 0 <= j < i ==> is_op_transfer(address, ops0, j, #[trigger] added(h0, self.history())[j]),
                forall|j: int| 0 <= j < i ==> (#[trigger] op_result(added(h0, self.history())[j])) is Ok,
                ops_after(ops0, added(h0, self.history()), operations@),
                i > 0 ==> prev_is_read == (ops0[i - 1] is Read),
            decreases n - i,
        {
            let ghost h1 = self.history();
            let ghost ops1 = operations@;
            assert(op_bytes(ops0[i as int]).len() <= u16::MAX);
            let is_read = match &operations[i] {
                Operation::Read(_) => true,
                Operation::Write(_) => false,
            };
            let last = i == n - 1;
            let flags = I2cFlagsAddress {
                is_read,
                slave_addr: address,
                send_stop: last,
                send_start: i == 0 || is_read != prev_is_read,
                send_nack: is_read && last,
            };
            assert(flags == frame(address, ops0, i as int));
            let value = flags.into_bits();
            let step: Result<Option<Vec<u8>>, I2cError> = match &operations[i] {
                Operation::Read(buf) => {
                    let len = buf.len();
                    let got = self.link.control_in(CMD_I2C_READ, value, 0, len as u16, I2C_TIMEOUT_MS);
                    match got {
                        Ok(data) => if data.len() == len {
                            Ok(Some(data))
                        } else {
                            Err(I2cError::ShortRead)
                        },
                        Err(f) => Err(I2cError::from(f)),
                    }
                },
                Operation::Write(buf) => {
                    let sent = self.link.control_out(CMD_I2C_WRITE, value, 0, buf.as_slice(), I2C_TIMEOUT_MS);
                    match sent {
                        Ok(()) => Ok(None),
                        Err(f) => Err(I2cError::from(f)),
                    }
                },
            };
            let ghost t = added(h0, self.history());
            proof {
                assert(t =~= added(h0, h1).push(self.history().last()));
                assert(t.last() == self.history().last());
                assert(is_op_transfer(address, ops0, i as int, t[i as int]));
                assert forall|j: int| 0 <= j < i implies t[j] == added(h0, h1)[j] by {}
            }
            match step {
                Err(e) => {
                    proof {
                        assert(op_result(t.last()) == Err::<(), I2cError>(e));
                        assert(ops_after(ops0, t, operations@)) by {
                            assert forall|j: int| 0 <= j < ops0.len() implies {
                                &&& (#[trigger] operations@[j] is Read) == (ops0[j] is Read)
                                &&& op_bytes(operations@[j]) == if j < t.len() && ops0[j] is Read && op_result(t[j]) is Ok {
                                    in_data(t[j])
                                } else {
                                    op_bytes(ops0[j])
                                }
                            } by {
                                assert(ops1[j] == operations@[j]);
                            }
                        }
                    }
                    return Err(e);
                },
                Ok(filled) => {
                    match filled {
                        Some(data) => {
                            operations[i] = Operation::Read(data);
                        },
                        None => {},
                    }
                    proof {
                        assert(op_result(t.last()) is Ok);
                        assert(ops_after(ops0, t, operations@)) by {
                            assert forall|j: int| 0 <= j < ops0.len() implies {
                                &&& (#[trigger] operations@[j] is Read) == (ops0[j] is Read)
                                &&& op_bytes(operations@[j]) == if j < t.len() && ops0[j] is Read && op_result(t[j]) is Ok {
                                    in_data(t[j])
                                } else {
                                    op_bytes(ops0[j])
                                }
                            } by {
                                if j != i {
                                    assert(ops1[j] == operations@[j]);
                                }
                            }
                        }
                    }
                },
            }
            prev_is_read = is_read;
            i = i + 1;
        }
        Ok(())
    }
}

} // verus!
