use std::cell::RefCell;
use std::collections::HashMap;
use std::collections::VecDeque;
use std::rc::Rc;

use usb4604::usb4604_reg::{Gpio0_7Output, Gpio8_10Dir, GPIO0_7_OUTPUT, GPIO8_10_DIR};
use usb4604::usb4604_hal::{is_bridge_device, single_device};
use usb4604::{Error, SmscReg, TransferFault, Usb4604, UsbTransport};

#[derive(Debug, Clone, PartialEq)]
enum Call {
    In { request: u8, value: u16, index: u16, length: u16, timeout_ms: u64 },
    Out { request: u8, value: u16, index: u16, data: Vec<u8>, timeout_ms: u64 },
}

#[derive(Default)]
struct Store {
    regs: HashMap<u16, u8>,
    calls: Vec<Call>,
    faults: VecDeque<Option<TransferFault>>,
    reply_len: Option<usize>,
}

#[derive(Clone, Default)]
struct MockHub(Rc<RefCell<Store>>);

impl MockHub {
    fn calls(&self) -> Vec<Call> {
        self.0.borrow().calls.clone()
    }

    fn writes(&self) -> usize {
        self.calls().iter().filter(|c| matches!(c, Call::Out { .. })).count()
    }

    fn set(&self, address: u16, value: u8) {
        self.0.borrow_mut().regs.insert(address, value);
    }

    fn get(&self, address: u16) -> u8 {
        *self.0.borrow().regs.get(&address).unwrap_or(&0)
    }
}

impl UsbTransport for MockHub {
    fn control_in(&mut self, request: u8, value: u16, index: u16, length: u16, timeout_ms: u64) -> Result<Vec<u8>, TransferFault> {
        let mut s = self.0.borrow_mut();
        s.calls.push(Call::In { request, value, index, length, timeout_ms });
        if let Some(Some(f)) = s.faults.pop_front() {
            return Err(f);
        }
        let byte = *s.regs.get(&value).unwrap_or(&0);
        let n = s.reply_len.unwrap_or(length as usize);
        Ok(vec![byte; n])
    }

    fn control_out(&mut self, request: u8, value: u16, index: u16, data: &[u8], timeout_ms: u64) -> Result<(), TransferFault> {
        let mut s = self.0.borrow_mut();
        s.calls.push(Call::Out { request, value, index, data: data.to_vec(), timeout_ms });
        if let Some(Some(f)) = s.faults.pop_front() {
            return Err(f);
        }
        if request == 0x03 && data.len() == 1 {
            s.regs.insert(value, data[0]);
        }
        Ok(())
    }
}

#[test]
fn write_then_read_returns_the_byte_written() {
    let hub = MockHub::default();
    let mut dev = Usb4604::new(hub.clone());
    for value in [0x00u8, 0x5A, 0xFF] {
        dev.write_register(0x0837, value).unwrap();
        assert_eq!(dev.read_register(0x0837).unwrap(), value);
    }
}

#[test]
fn register_read_uses_vendor_request_four() {
    let hub = MockHub::default();
    hub.set(0x0833, 0x2B);
    let mut dev = Usb4604::new(hub.clone());
    assert_eq!(dev.read_register(0x0833).unwrap(), 0x2B);
    assert_eq!(hub.calls(), vec![Call::In { request: 0x04, value: 0x0833, index: 0, length: 1, timeout_ms: 500 }]);
}

#[test]
fn register_write_uses_vendor_request_three() {
    let hub = MockHub::default();
    let mut dev = Usb4604::new(hub.clone());
    dev.write_register(0x0836, 0x07).unwrap();
    assert_eq!(hub.calls(), vec![Call::Out { request: 0x03, value: 0x0836, index: 0, data: vec![0x07], timeout_ms: 500 }]);
    assert_eq!(hub.get(0x0836), 0x07);
}

#[test]
fn read_with_wrong_length_is_an_error() {
    let hub = MockHub::default();
    hub.0.borrow_mut().reply_len = Some(0);
    let mut dev = Usb4604::new(hub.clone());
    assert!(matches!(dev.read_register(0x0837), Err(Error::ShortRead)));
    hub.0.borrow_mut().reply_len = Some(2);
    assert!(matches!(dev.read_register(0x0837), Err(Error::ShortRead)));
}

#[test]
fn transfer_failure_is_passed_through() {
    let hub = MockHub::default();
    hub.0.borrow_mut().faults.push_back(Some(TransferFault::Stall));
    let mut dev = Usb4604::new(hub.clone());
    assert!(matches!(dev.read_register(0x0837), Err(Error::TransferError(TransferFault::Stall))));
    hub.0.borrow_mut().faults.push_back(Some(TransferFault::Disconnected));
    assert!(matches!(dev.write_register(0x0837, 1), Err(Error::TransferError(TransferFault::Disconnected))));
}

#[test]
fn modify_without_change_issues_no_write() {
    let hub = MockHub::default();
    hub.set(0x0837, 0b1010_0001);
    let mut dev = Usb4604::new(hub.clone());
    dev.modify_register(0x0837, 0b0000_0001, 0b0000_0001).unwrap();
    dev.modify_register(0x0837, 0b0000_0110, 0b0000_0000).unwrap();
    assert_eq!(hub.writes(), 0);
    assert_eq!(hub.calls().len(), 2);
}

#[test]
fn modify_with_change_issues_one_write() {
    let hub = MockHub::default();
    hub.set(0x0837, 0b1010_0001);
    let mut dev = Usb4604::new(hub.clone());
    dev.modify_register(0x0837, 0b0000_0010, 0b1111_1111).unwrap();
    assert_eq!(hub.writes(), 1);
    assert_eq!(hub.get(0x0837), 0b1010_0011);
}

#[test]
fn modify_keeps_bits_outside_the_mask() {
    let hub = MockHub::default();
    hub.set(0x0833, 0b1111_0000);
    let mut dev = Usb4604::new(hub.clone());
    dev.modify_register(0x0833, 0b0001_1000, 0b0000_1000).unwrap();
    assert_eq!(hub.get(0x0833), 0b1110_1000);
}

#[test]
fn modify_stops_after_a_failed_read() {
    let hub = MockHub::default();
    hub.set(0x0833, 0);
    hub.0.borrow_mut().faults.push_back(Some(TransferFault::Fault));
    let mut dev = Usb4604::new(hub.clone());
    assert!(matches!(dev.modify_register(0x0833, 1, 1), Err(Error::TransferError(TransferFault::Fault))));
    assert_eq!(hub.calls().len(), 1);
    assert_eq!(hub.get(0x0833), 0);
}

#[test]
fn typed_registers_use_their_addresses() {
    let hub = MockHub::default();
    hub.set(GPIO8_10_DIR, 0x05);
    let mut dev = Usb4604::new(hub.clone());
    let dir: Gpio8_10Dir = dev.read_reg().unwrap();
    assert_eq!(dir.value(), 0x05);
    dev.write_reg(Gpio0_7Output::from_value(0x21)).unwrap();
    assert_eq!(hub.get(GPIO0_7_OUTPUT), 0x21);
    dev.modify_reg::<Gpio0_7Output>(0x01, 0x00).unwrap();
    assert_eq!(hub.get(GPIO0_7_OUTPUT), 0x20);
    assert_eq!(Gpio0_7Output::ADDR, 0x0837);
}

#[test]
fn transfer_fault_converts_into_error() {
    let e: Error = TransferFault::Cancelled.into();
    assert!(matches!(e, Error::TransferError(TransferFault::Cancelled)));
}

#[test]
fn device_selection_tells_none_from_several() {
    assert!(matches!(single_device::<u8>(vec![]), Err(Error::NoDevicesFound)));
    assert!(matches!(single_device(vec![1u8, 2]), Err(Error::MultipleDevicesFound)));
    assert!(matches!(single_device(vec![7u8]), Ok(7)));
    assert!(is_bridge_device(0x0424, 0x2530));
    assert!(!is_bridge_device(0x0424, 0x4502));
    assert!(!is_bridge_device(0x0425, 0x2530));
}

#[test]
fn cloned_handles_share_the_device() {
    let hub = MockHub::default();
    let mut a = Usb4604::new(hub.clone());
    let mut b = a.clone();
    a.write_register(0x0836, 0x03).unwrap();
    assert_eq!(b.read_register(0x0836).unwrap(), 0x03);
}
