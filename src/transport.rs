use vstd::prelude::*;

verus! {

/// Why a control transfer failed, as the USB stack reports it.
#[derive(Clone, Copy, Debug, PartialEq, Eq, Structural)]
pub enum TransferFault {
    /// The transfer was cancelled or timed out.
    Cancelled,
    /// The device answered with a STALL handshake.
    Stall,
    /// The device is gone.
    Disconnected,
    /// Hardware issue or protocol violation.
    Fault,
    /// The request had an invalid argument or is not supported by the host.
    InvalidArgument,
    /// Any other failure, with the host's own code.
    Unknown(u32),
}

/// Synchronous vendor control transfers addressed to the hub's interface.
///
/// This is all the driver needs from a USB stack. Nothing is assumed of what
/// an implementation returns: the driver records each answer in its history
/// and its contracts hold for every answer.
pub trait UsbTransport {
    /// Device-to-host control transfer asking for `length` bytes.
    fn control_in(&mut self, request: u8, value: u16, index: u16, length: u16, timeout_ms: u64) -> Result<Vec<u8>, TransferFault>;

    /// Host-to-device control transfer carrying `data`.
    fn control_out(&mut self, request: u8, value: u16, index: u16, data: &[u8], timeout_ms: u64) -> Result<(), TransferFault>;
}

/// One control transfer that a handle issued, with what came back.
#[allow(inconsistent_fields)]
pub enum Transfer {
    /// Device to host: the request and what came back.
    In { request: u8, value: u16, index: u16, length: u16, timeout_ms: u64, outcome: Result<Seq<u8>, TransferFault> },
    /// Host to device: the request, the bytes sent and whether it succeeded.
    Out { request: u8, value: u16, index: u16, data: Seq<u8>, timeout_ms: u64, outcome: Result<(), TransferFault> },
}

/// The answer of a device-to-host transfer, as a sequence of bytes.
pub open spec fn in_outcome(r: Result<Vec<u8>, TransferFault>) -> Result<Seq<u8>, TransferFault> {
    match r {
        Ok(v) => Ok(v@),
        Err(e) => Err(e),
    }
}

/// A transport together with the record of what went through it.
#[derive(Clone)]
pub struct Link<T: UsbTransport> {
    transport: T,
    history: Ghost<Seq<Transfer>>,
}

impl<T: UsbTransport> Link<T> {
    /// The transfers issued through this link, oldest first.
    pub closed spec fn history(&self) -> Seq<Transfer> {
        self.history@
    }

    pub fn new(transport: T) -> (r: Self)
        ensures
            r.history() == Seq::<Transfer>::empty(),
    {
        Link { transport, history: Ghost(Seq::empty()) }
    }

    pub fn control_in(&mut self, request: u8, value: u16, index: u16, length: u16, timeout_ms: u64) -> (r: Result<Vec<u8>, TransferFault>)
        ensures
            final(self).history() == old(self).history().push(
                Transfer::In { request, value, index, length, timeout_ms, outcome: in_outcome(r) },
            ),
    {
        let r = self.transport.control_in(request, value, index, length, timeout_ms);
        self.history = Ghost(self.history@.push(Transfer::In { request, value, index, length, timeout_ms, outcome: in_outcome(r) }));
        r
    }

    pub fn control_out(&mut self, request: u8, value: u16, index: u16, data: &[u8], timeout_ms: u64) -> (r: Result<(), TransferFault>)
        ensures
            final(self).history() == old(self).history().push(
                Transfer::Out { request, value, index, data: data@, timeout_ms, outcome: r },
            ),
    {
        let r = self.transport.control_out(request, value, index, data, timeout_ms);
        self.history = Ghost(self.history@.push(Transfer::Out { request, value, index, data: data@, timeout_ms, outcome: r }));
        r
    }
}

impl<T: UsbTransport + Clone> Link<T> {
    /// A second link on the same transport, with a history of its own.
    pub fn share(&self) -> (r: Self)
        ensures
            r.history() == Seq::<Transfer>::empty(),
    {
        Link { transport: self.transport.clone(), history: Ghost(Seq::empty()) }
    }
}

} // verus!
