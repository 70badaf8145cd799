use vstd::prelude::*;

use crate::i2c::{enter_result, is_enter_transfer, I2cBridge};
use crate::transport::{Link, Transfer, TransferFault, UsbTransport};
use crate::{Error, SmscReg};

verus! {

/// Vendor request that writes one register byte.
pub const CMD_REG_WRITE: u8 = 0x03;

/// Vendor request that reads one register byte.
pub const CMD_REG_READ: u8 = 0x04;

/// USB vendor id of the hub's bridge device.
pub const VENDOR_SMSC: u16 = 0x0424;

/// USB product id of the hub's bridge device.
pub const PRODUCT_BRIDGE_DEV: u16 = 0x2530;

/// Whether a device with these ids is the hub's bridge device.
pub fn is_bridge_device(vendor_id: u16, product_id: u16) -> (r: bool)
    ensures
        r == (vendor_id == VENDOR_SMSC && product_id == PRODUCT_BRIDGE_DEV),
{
    vendor_id == VENDOR_SMSC && product_id == PRODUCT_BRIDGE_DEV
}

/// The one device among `found`: none and several are told apart.
pub fn single_device<D>(found: Vec<D>) -> (r: Result<D, Error>)
    ensures
        found@.len() == 0 ==> r is Err && r->Err_0 is NoDevicesFound,
        found@.len() > 1 ==> r is Err && r->Err_0 is MultipleDevicesFound,
        found@.len() == 1 ==> r == Ok::<D, Error>(found@[0]),
{
    let mut found = found;
    if found.len() > 1 {
        Err(Error::MultipleDevicesFound)
    } else {
        match found.pop() {
            Some(d) => Ok(d),
            None => Err(Error::NoDevicesFound),
        }
    }
}

/// Timeout of each register transfer, in milliseconds.
pub const REG_TIMEOUT_MS: u64 = 500;

/// `t` is the transfer that reads the register at `address`.
pub open spec fn is_reg_read(t: Transfer, address: u16) -> bool {
    match t {
        Transfer::In { request, value, index, length, timeout_ms, .. } => request == CMD_REG_READ
            && value == address && index == 0 && length == 1 && timeout_ms == REG_TIMEOUT_MS,
        _ => false,
    }
}

/// `t` is the transfer that writes `byte` to the register at `address`.
pub open spec fn is_reg_write(t: Transfer, address: u16, byte: u8) -> bool {
    match t {
        Transfer::Out { request, value, index, data, timeout_ms, .. } => request == CMD_REG_WRITE
            && value == address && index == 0 && data == seq![byte] && timeout_ms
            == REG_TIMEOUT_MS,
        _ => false,
    }
}

/// What a register read yields from the answer `t`: the byte when exactly one came back.
pub open spec fn reg_read_result(t: Transfer) -> Result<u8, Error> {
    match t {
        Transfer::In { outcome, .. } => match outcome {
            Ok(data) => if data.len() == 1 {
                Ok(data[0])
            } else {
                Err(Error::ShortRead)
            },
            Err(f) => Err(Error::TransferError(f)),
        },
        Transfer::Out { .. } => Err(Error::ShortRead),
    }
}

/// What a register write yields from the answer `t`.
pub open spec fn reg_write_result(t: Transfer) -> Result<(), Error> {
    match t {
        Transfer::Out { outcome, .. } => match outcome {
            Ok(_) => Ok(()),
            Err(f) => Err(Error::TransferError(f)),
        },
        Transfer::In { .. } => Err(Error::ShortRead),
    }
}

/// The byte `old` with the bits under `mask` taken from `bits`.
pub open spec fn apply_update(old: u8, mask: u8, bits: u8) -> u8 {
    (old & !mask) | (bits & mask)
}

/// When `t` starts with the transfers of a read-modify-write of `address`,
/// what the cycle returned and how many transfers it took: one read, and one
/// write only when the updated byte differs from the one read.
pub open spec fn modify_prefix(t: Seq<Transfer>, address: u16, mask: u8, bits: u8) -> Option<(Result<(), Error>, nat)> {
    if t.len() >= 1 && is_reg_read(t[0], address) {
        match reg_read_result(t[0]) {
            Err(e) => Some((Err(e), 1nat)),
            Ok(b) => if apply_update(b, mask, bits) == b {
                Some((Ok(()), 1nat))
            } else if t.len() >= 2 && is_reg_write(t[1], address, apply_update(b, mask, bits)) {
                Some((reg_write_result(t[1]), 2nat))
            } else {
                None
            },
        }
    } else {
        None
    }
}

/// `t` holds exactly the transfers of one read-modify-write of `address`, which returned `r`.
pub open spec fn modify_trace(t: Seq<Transfer>, address: u16, mask: u8, bits: u8, r: Result<(), Error>) -> bool {
    modify_prefix(t, address, mask, bits) == Some((r, t.len()))
}

/// The transfers added to the history `h0` to give `h`.
pub open spec fn added(h0: Seq<Transfer>, h: Seq<Transfer>) -> Seq<Transfer> {
    h.skip(h0.len() as int)
}

/// The byte carried by a host-to-device transfer.
pub open spec fn written_byte(t: Transfer) -> u8 {
    match t {
        Transfer::Out { data, .. } => data[0],
        Transfer::In { .. } => 0,
    }
}

/// How many host-to-device transfers `t` holds.
pub open spec fn write_count(t: Seq<Transfer>) -> nat
    decreases t.len(),
{
    if t.len() == 0 {
        0
    } else {
        write_count(t.drop_last()) + if t.last() is Out {
            1nat
        } else {
            0nat
        }
    }
}

/// A read-modify-write changes no bit outside its mask: when it writes, the
/// byte written agrees with the byte read on every bit that the mask leaves
/// out.
pub proof fn modify_preserves_other_bits(t: Seq<Transfer>, address: u16, mask: u8, bits: u8, r: Result<(), Error>)
    requires
        modify_trace(t, address, mask, bits, r),
    ensures
        t.len() == 2 ==> {
            &&& reg_read_result(t[0]) is Ok
            &&& is_reg_write(t[1], address, written_byte(t[1]))
            &&& written_byte(t[1]) & !mask == reg_read_result(t[0])->Ok_0 & !mask
        },
{
    if t.len() == 2 {
        let b = reg_read_result(t[0])->Ok_0;
        assert(((b & !mask) | (bits & mask)) & !mask == b & !mask) by (bit_vector);
    }
}

/// A read-modify-write whose read succeeded issues no write when the updated
/// byte equals the byte read, and exactly one write otherwise.
pub proof fn modify_writes_only_on_change(t: Seq<Transfer>, address: u16, mask: u8, bits: u8, r: Result<(), Error>)
    requires
        modify_trace(t, address, mask, bits, r),
        reg_read_result(t[0]) is Ok,
    ensures
        write_count(t) == if apply_update(reg_read_result(t[0])->Ok_0, mask, bits) == reg_read_result(t[0])->Ok_0 {
            0nat
        } else {
            1nat
        },
{
    reveal_with_fuel(write_count, 3);
    if t.len() == 2 {
        assert(t.drop_last().drop_last() =~= Seq::<Transfer>::empty());
    } else {
        assert(t.drop_last() =~= Seq::<Transfer>::empty());
    }
}

/// The byte that a register store holds at `address` after the transfers
/// `h`: the last one written there with success, if any.
pub open spec fn store_value(h: Seq<Transfer>, address: u16) -> Option<u8>
    decreases h.len(),
{
    if h.len() == 0 {
        None
    } else if is_reg_write(h.last(), address, written_byte(h.last())) && reg_write_result(h.last()) is Ok {
        Some(written_byte(h.last()))
    } else {
        store_value(h.drop_last(), address)
    }
}

/// The address that a transfer names.
pub open spec fn transfer_value(t: Transfer) -> u16 {
    match t {
        Transfer::In { value, .. } => value,
        Transfer::Out { value, .. } => value,
    }
}

/// The device behind `h` answered as a register store: each register read of
/// an address that had been written returned just the byte last written.
pub open spec fn answers_as_store(h: Seq<Transfer>) -> bool {
    forall|i: int|
        0 <= i < h.len() && is_reg_read(#[trigger] h[i], transfer_value(h[i])) && store_value(h.take(i), transfer_value(h[i])) is Some
            ==> reg_read_result(h[i]) == Ok::<u8, Error>(store_value(h.take(i), transfer_value(h[i]))->Some_0)
}

/// Round trip: against a device that answers as a register store, reading
/// a register right after writing `value` to it with success gives `value`.
/// `h1` and `h2` are the histories after the write and after the read.
pub proof fn write_then_read(h0: Seq<Transfer>, h1: Seq<Transfer>, h2: Seq<Transfer>, address: u16, value: u8, r: Result<u8, Error>)
    requires
        h1.len() == h0.len() + 1,
        h1.drop_last() == h0,
        is_reg_write(h1.last(), address, value),
        reg_write_result(h1.last()) is Ok,
        h2.len() == h1.len() + 1,
        h2.drop_last() == h1,
        is_reg_read(h2.last(), address),
        r == reg_read_result(h2.last()),
        answers_as_store(h2),
    ensures
        r == Ok::<u8, Error>(value),
{
    let i = h1.len() as int;
    assert(h2.take(i) =~= h1);
    assert(h2[i] == h2.last());
    assert(seq![value][0] == value);
    assert(store_value(h1, address) == Some(value));
}

/// A shared handle on one hub interface.
///
/// Every register access is a fresh round trip: no register value is cached.
#[derive(Clone)]
pub struct Usb4604<T: UsbTransport> {
    link: Link<T>,
}

impl<T: UsbTransport> Usb4604<T> {
    /// The transfers issued through this handle, oldest first.
    pub closed spec fn history(&self) -> Seq<Transfer> {
        self.link.history()
    }

    /// Wraps an opened and claimed interface.
    pub fn new(transport: T) -> (r: Usb4604<T>)
        ensures
            r.history() == Seq::<Transfer>::empty(),
    {
        Usb4604 { link: Link::new(transport) }
    }

    /// Reads the register at `address`.
    pub fn read_register(&mut self, address: u16) -> (r: Result<u8, Error>)
        ensures
            final(self).history().len() == old(self).history().len() + 1,
            final(self).history().drop_last() == old(self).history(),
            is_reg_read(final(self).history().last(), address),
            r == reg_read_result(final(self).history().last()),
    {
        let ghost h0 = self.history();
        let read = self.link.control_in(CMD_REG_READ, address, 0, 1, REG_TIMEOUT_MS);
        assert(self.history().drop_last() =~= h0);
        match read {
            Ok(data) => {
                if data.len() == 1 {
                    Ok(data[0])
                } else {
                    Err(Error::ShortRead)
                }
            },
            Err(f) => Err(Error::TransferError(f)),
        }
    }

    /// Writes `value` to the register at `address`.
    pub fn write_register(&mut self, address: u16, value: u8) -> (r: Result<(), Error>)
        ensures
            final(self).history().len() == old(self).history().len() + 1,
            final(self).history().drop_last() == old(self).history(),
            is_reg_write(final(self).history().last(), address, value),
            r == reg_write_result(final(self).history().last()),
    {
        let ghost h0 = self.history();
        let data: [u8; 1] = [value];
        let written = self.link.control_out(CMD_REG_WRITE, address, 0, data.as_slice(), REG_TIMEOUT_MS);
        assert(self.history().drop_last() =~= h0);
        assert(data@ =~= seq![value]);
        match written {
            Ok(()) => Ok(()),
            Err(f) => Err(Error::TransferError(f)),
        }
    }

    /// Reads the register at `address`, replaces the bits under `mask` with
    /// those of `bits`, and writes the result back only when it differs from
    /// the byte read. The other bits keep the value read.
    pub fn modify_register(&mut self, address: u16, mask: u8, bits: u8) -> (r: Result<(), Error>)
        ensures
            old(self).history().is_prefix_of(final(self).history()),
            modify_trace(added(old(self).history(), final(self).history()), address, mask, bits, r),
    {
        let ghost h0 = self.history();
        let old_value = self.read_register(address)?;
        let value = (old_value & !mask) | (bits & mask);
        if value != old_value {
            let r = self.write_register(address, value);
            assert(added(h0, self.history()) =~= seq![self.history()[h0.len() as int], self.history().last()]);
            r
        } else {
            assert(added(h0, self.history()) =~= seq![self.history().last()]);
            Ok(())
        }
    }

    /// Reads the register `R`.
    pub fn read_reg<R: SmscReg>(&mut self) -> (r: Result<R, Error>)
        ensures
            final(self).history().len() == old(self).history().len() + 1,
            final(self).history().drop_last() == old(self).history(),
            is_reg_read(final(self).history().last(), R::ADDR),
            match r {
                Ok(v) => reg_read_result(final(self).history().last()) == Ok::<u8, Error>(v.spec_value()),
                Err(e) => reg_read_result(final(self).history().last()) == Err::<u8, Error>(e),
            },
    {
        let value = self.read_register(R::ADDR)?;
        Ok(R::from_value(value))
    }

    /// Writes `value` to the register `R`.
    pub fn write_reg<R: SmscReg>(&mut self, value: R) -> (r: Result<(), Error>)
        ensures
            final(self).history().len() == old(self).history().len() + 1,
            final(self).history().drop_last() == old(self).history(),
            is_reg_write(final(self).history().last(), R::ADDR, value.spec_value()),
            r == reg_write_result(final(self).history().last()),
    {
        let bits = value.value();
        self.write_register(R::ADDR, bits)
    }

    /// Read-modify-write of the register `R`: see [`Self::modify_register`].
    pub fn modify_reg<R: SmscReg>(&mut self, mask: u8, bits: u8) -> (r: Result<(), Error>)
        ensures
            old(self).history().is_prefix_of(final(self).history()),
            modify_trace(added(old(self).history(), final(self).history()), R::ADDR, mask, bits, r),
    {
        self.modify_register(R::ADDR, mask, bits)
    }
}

impl<T: UsbTransport + Clone> Usb4604<T> {
    /// A second handle on the same interface, with a history of its own.
    pub fn share(&self) -> (r: Self)
        ensures
            r.history() == Seq::<Transfer>::empty(),
    {
        Usb4604 { link: self.link.share() }
    }

    /// Switches the hub into I2C passthrough through this handle and
    /// returns a bridge on a share of it.
    pub fn i2c_bridge(&mut self) -> (r: Result<I2cBridge<T>, Error>)
        ensures
            final(self).history().len() == old(self).history().len() + 1,
            final(self).history().drop_last() == old(self).history(),
            is_enter_transfer(final(self).history().last()),
            (r is Ok) == (enter_result(final(self).history().last()) is Ok),
            r is Err ==> enter_result(final(self).history().last()) == Err::<(), Error>(r->Err_0),
            r is Ok ==> r->Ok_0.history() == Seq::<Transfer>::empty(),
    {
        I2cBridge::init(&mut self.link)
    }
}

} // verus!
