use std::cell::RefCell;
use std::collections::VecDeque;
use std::rc::Rc;

use usb4604::{I2cError, I2cErrorKind, I2cFlagsAddress, Operation, TransferFault, Usb4604, UsbTransport};

#[derive(Debug, Clone, PartialEq)]
enum Call {
    In { request: u8, value: u16, index: u16, length: u16, timeout_ms: u64 },
    Out { request: u8, value: u16, index: u16, data: Vec<u8>, timeout_ms: u64 },
}

#[derive(Default)]
struct Slave {
    calls: Vec<Call>,
    faults: VecDeque<Option<TransferFault>>,
    reply: VecDeque<Vec<u8>>,
}

#[derive(Clone, Default)]
struct MockBridge(Rc<RefCell<Slave>>);

impl MockBridge {
    fn calls(&self) -> Vec<Call> {
        self.0.borrow().calls.clone()
    }

    fn values(&self) -> Vec<u16> {
        self.calls()
            .into_iter()
            .skip(1)
            .map(|c| match c {
                Call::In { value, .. } => value,
                Call::Out { value, .. } => value,
            })
            .collect()
    }
}

impl UsbTransport for MockBridge {
    fn control_in(&mut self, request: u8, value: u16, index: u16, length: u16, timeout_ms: u64) -> Result<Vec<u8>, TransferFault> {
        let mut s = self.0.borrow_mut();
        s.calls.push(Call::In { request, value, index, length, timeout_ms });
        if let Some(Some(f)) = s.faults.pop_front() {
            return Err(f);
        }
        Ok(s.reply.pop_front().unwrap_or_else(|| vec![0xEE; length as usize]))
    }

    fn control_out(&mut self, request: u8, value: u16, index: u16, data: &[u8], timeout_ms: u64) -> Result<(), TransferFault> {
        let mut s = self.0.borrow_mut();
        s.calls.push(Call::Out { request, value, index, data: data.to_vec(), timeout_ms });
        if let Some(Some(f)) = s.faults.pop_front() {
            return Err(f);
        }
        Ok(())
    }
}

fn flags_of(value: u16) -> (bool, u8, bool, bool, bool) {
    (value & 0x8000 != 0, ((value >> 8) & 0x7F) as u8, value & 0x80 != 0, value & 0x40 != 0, value & 0x20 != 0)
}

#[test]
fn bridge_enters_passthrough_once() {
    let mock = MockBridge::default();
    let mut dev = Usb4604::new(mock.clone());
    let _bridge = dev.i2c_bridge().unwrap();
    assert_eq!(mock.calls(), vec![Call::Out { request: 0x70, value: 0, index: 0, data: vec![], timeout_ms: 100 }]);
}

#[test]
fn bridge_init_failure_is_reported() {
    let mock = MockBridge::default();
    mock.0.borrow_mut().faults.push_back(Some(TransferFault::Stall));
    let mut dev = Usb4604::new(mock.clone());
    assert!(matches!(dev.i2c_bridge(), Err(usb4604::Error::TransferError(TransferFault::Stall))));
}

#[test]
fn framing_of_writes_then_reads() {
    let mock = MockBridge::default();
    let mut dev = Usb4604::new(mock.clone());
    let mut bridge = dev.i2c_bridge().unwrap();
    mock.0.borrow_mut().reply.push_back(vec![0x11, 0x22]);
    mock.0.borrow_mut().reply.push_back(vec![0x33]);
    let mut ops = vec![
        Operation::Write(vec![0xA0, 0xB0]),
        Operation::Write(vec![0xC0]),
        Operation::Read(vec![0; 2]),
        Operation::Read(vec![0; 1]),
    ];
    bridge.transaction(0x55, &mut ops).unwrap();
    let values = mock.values();
    assert_eq!(values, vec![0x5540, 0x5500, 0xD540, 0xD5A0]);
    let flags: Vec<_> = values.iter().map(|v| flags_of(*v)).collect();
    assert_eq!(flags[0], (false, 0x55, false, true, false));
    assert_eq!(flags[1], (false, 0x55, false, false, false));
    assert_eq!(flags[2], (true, 0x55, false, true, false));
    assert_eq!(flags[3], (true, 0x55, true, false, true));
    let calls = mock.calls();
    assert_eq!(calls[1], Call::Out { request: 0x71, value: 0x5540, index: 0, data: vec![0xA0, 0xB0], timeout_ms: 100 });
    assert_eq!(calls[2], Call::Out { request: 0x71, value: 0x5500, index: 0, data: vec![0xC0], timeout_ms: 100 });
    assert_eq!(calls[3], Call::In { request: 0x72, value: 0xD540, index: 0, length: 2, timeout_ms: 100 });
    assert_eq!(calls[4], Call::In { request: 0x72, value: 0xD5A0, index: 0, length: 1, timeout_ms: 100 });
    assert!(matches!(&ops[2], Operation::Read(b) if *b == vec![0x11, 0x22]));
    assert!(matches!(&ops[3], Operation::Read(b) if *b == vec![0x33]));
    assert!(matches!(&ops[0], Operation::Write(b) if *b == vec![0xA0, 0xB0]));
}

#[test]
fn read_then_write_starts_again() {
    let mock = MockBridge::default();
    let mut dev = Usb4604::new(mock.clone());
    let mut bridge = dev.i2c_bridge().unwrap();
    let mut ops = vec![Operation::Read(vec![0; 1]), Operation::Write(vec![1])];
    bridge.transaction(0x08, &mut ops).unwrap();
    assert_eq!(mock.values(), vec![0x8840, 0x08C0]);
}

#[test]
fn single_read_gets_start_stop_and_nack() {
    let mock = MockBridge::default();
    let mut dev = Usb4604::new(mock.clone());
    let mut bridge = dev.i2c_bridge().unwrap();
    let mut ops = vec![Operation::Read(vec![0; 3])];
    bridge.transaction(0x7F, &mut ops).unwrap();
    assert_eq!(mock.values(), vec![0xFFE0]);
    assert!(matches!(&ops[0], Operation::Read(b) if *b == vec![0xEE; 3]));
}

#[test]
fn empty_transaction_issues_nothing() {
    let mock = MockBridge::default();
    let mut dev = Usb4604::new(mock.clone());
    let mut bridge = dev.i2c_bridge().unwrap();
    let mut ops: Vec<Operation> = vec![];
    assert_eq!(bridge.transaction(0x10, &mut ops), Ok(()));
    assert_eq!(mock.calls().len(), 1);
}

#[test]
fn address_above_seven_bits_is_rejected_before_any_transfer() {
    let mock = MockBridge::default();
    let mut dev = Usb4604::new(mock.clone());
    let mut bridge = dev.i2c_bridge().unwrap();
    for address in [0x80u8, 0x81, 0xFF] {
        let mut ops = vec![Operation::Write(vec![1, 2, 3]), Operation::Read(vec![0; 4])];
        assert_eq!(bridge.transaction(address, &mut ops), Err(I2cError::WrongAddress));
        assert!(matches!(&ops[1], Operation::Read(b) if *b == vec![0; 4]));
    }
    assert_eq!(mock.calls().len(), 1);
}

#[test]
fn stall_on_write_is_a_nack() {
    let mock = MockBridge::default();
    let mut dev = Usb4604::new(mock.clone());
    let mut bridge = dev.i2c_bridge().unwrap();
    mock.0.borrow_mut().faults.push_back(Some(TransferFault::Stall));
    let mut ops = vec![Operation::Write(vec![1]), Operation::Read(vec![0; 1])];
    assert_eq!(bridge.transaction(0x20, &mut ops), Err(I2cError::Nack));
    assert_eq!(mock.calls().len(), 2);
}

#[test]
fn stall_on_read_is_a_nack() {
    let mock = MockBridge::default();
    let mut dev = Usb4604::new(mock.clone());
    let mut bridge = dev.i2c_bridge().unwrap();
    {
        let mut s = mock.0.borrow_mut();
        s.faults.push_back(None);
        s.faults.push_back(Some(TransferFault::Stall));
    }
    let mut ops = vec![Operation::Write(vec![1]), Operation::Read(vec![0; 1])];
    assert_eq!(bridge.transaction(0x20, &mut ops), Err(I2cError::Nack));
}

#[test]
fn other_failures_pass_through_for_reads_and_writes() {
    let mock = MockBridge::default();
    let mut dev = Usb4604::new(mock.clone());
    let mut bridge = dev.i2c_bridge().unwrap();
    mock.0.borrow_mut().faults.push_back(Some(TransferFault::Disconnected));
    let mut ops = vec![Operation::Read(vec![0; 2])];
    assert_eq!(bridge.transaction(0x20, &mut ops), Err(I2cError::Other(TransferFault::Disconnected)));
    mock.0.borrow_mut().faults.push_back(Some(TransferFault::Fault));
    let mut ops = vec![Operation::Write(vec![9])];
    assert_eq!(bridge.transaction(0x20, &mut ops), Err(I2cError::Other(TransferFault::Fault)));
    mock.0.borrow_mut().faults.push_back(Some(TransferFault::Unknown(5)));
    let mut ops = vec![Operation::Write(vec![9])];
    assert_eq!(bridge.transaction(0x20, &mut ops), Err(I2cError::Other(TransferFault::Unknown(5))));
}

#[test]
fn short_read_is_an_error_and_earlier_reads_stay() {
    let mock = MockBridge::default();
    let mut dev = Usb4604::new(mock.clone());
    let mut bridge = dev.i2c_bridge().unwrap();
    mock.0.borrow_mut().reply.push_back(vec![7, 8]);
    mock.0.borrow_mut().reply.push_back(vec![9]);
    let mut ops = vec![Operation::Read(vec![0; 2]), Operation::Write(vec![1]), Operation::Read(vec![0; 2]), Operation::Write(vec![2])];
    assert_eq!(bridge.transaction(0x30, &mut ops), Err(I2cError::ShortRead));
    assert!(matches!(&ops[0], Operation::Read(b) if *b == vec![7, 8]));
    assert!(matches!(&ops[2], Operation::Read(b) if *b == vec![0, 0]));
    assert_eq!(mock.calls().len(), 4);
}

#[test]
fn error_kinds_and_conversion() {
    assert_eq!(I2cError::from(TransferFault::Stall), I2cError::Nack);
    assert_eq!(I2cError::from(TransferFault::Cancelled), I2cError::Other(TransferFault::Cancelled));
    assert_eq!(I2cError::Nack.kind(), I2cErrorKind::NoAcknowledge);
    assert_eq!(I2cError::WrongAddress.kind(), I2cErrorKind::Other);
    assert_eq!(I2cError::ShortRead.kind(), I2cErrorKind::Other);
    assert_eq!(I2cError::Other(TransferFault::Stall).kind(), I2cErrorKind::Other);
}

#[test]
fn flags_pack_most_significant_first() {
    let f = I2cFlagsAddress { is_read: true, slave_addr: 0x2A, send_stop: false, send_start: true, send_nack: false };
    assert_eq!(f.into_bits(), 0xAA40);
    let g = I2cFlagsAddress { is_read: false, slave_addr: 0, send_stop: true, send_start: false, send_nack: true };
    assert_eq!(g.into_bits(), 0x00A0);
}
