use std::cell::RefCell;
use std::rc::Rc;

use anytone_emu::device::{Device, DeviceError};
use anytone_emu::djmd5x::DJMD5X;
use anytone_emu::request::{Request, RequestType};
use anytone_emu::writer::{SinkError, Writer};

struct NoWriter;

impl Writer for NoWriter {
    fn write(&mut self, _addr: u32, _data: &[u8; 16]) -> Result<(), SinkError> {
        Ok(())
    }
    fn reset(&mut self) -> Result<(), SinkError> {
        Ok(())
    }
}

struct RecordingWriter {
    log: Rc<RefCell<Vec<(u32, [u8; 16])>>>,
    resets: Rc<RefCell<u32>>,
}

impl Writer for RecordingWriter {
    fn write(&mut self, addr: u32, data: &[u8; 16]) -> Result<(), SinkError> {
        self.log.borrow_mut().push((addr, *data));
        Ok(())
    }
    fn reset(&mut self) -> Result<(), SinkError> {
        *self.resets.borrow_mut() += 1;
        Ok(())
    }
}

struct FailingWriter;

impl Writer for FailingWriter {
    fn write(&mut self, _addr: u32, _data: &[u8; 16]) -> Result<(), SinkError> {
        Err(SinkError)
    }
    fn reset(&mut self) -> Result<(), SinkError> {
        Err(SinkError)
    }
}

fn fresh_device() -> Device<DJMD5X<NoWriter>> {
    Device::new(DJMD5X::<NoWriter>::new(None))
}

/// Opens the session: feeds `PROGRAM` and processes the request.
fn open_session(device: &mut Device<DJMD5X<NoWriter>>) {
    device.push_bytes(b"PROGRAM");
    let req = device.read_request().unwrap().unwrap();
    let resp = device.process(&req).unwrap().unwrap();
    assert_eq!(resp.packet, vec![0x51, 0x58, 0x06]);
}

#[test]
fn program_in_open_yields_program_ok() {
    let mut device = fresh_device();
    assert!(device.is_ready());
    device.push_bytes(b"PROGRAM");
    let req = device.read_request().unwrap().unwrap();
    assert!(matches!(req.request_type, RequestType::Program));
    let resp = device.process(&req).unwrap().unwrap();
    assert_eq!(resp.packet, vec![0x51, 0x58, 0x06]);
    assert!(device.is_ready());
    // the new state is Program: an info byte is now recognized
    device.push_bytes(&[0x02]);
    let req = device.read_request().unwrap().unwrap();
    assert!(matches!(req.request_type, RequestType::DeviceInfo));
}

#[test]
fn device_info_in_program_yields_identity_packet() {
    let mut device = fresh_device();
    open_session(&mut device);
    device.push_bytes(&[0x02]);
    let req = device.read_request().unwrap().unwrap();
    let resp = device.process(&req).unwrap().unwrap();
    let expected: Vec<u8> = vec![
        0x49, 0x44, b'J', b'M', b'D', b'5', b'X', 0x00, 0x00, b'V', b'1', b'0', b'0', 0x00, 0x00,
        0x06,
    ];
    assert_eq!(resp.packet, expected);
}

#[test]
fn read_request_in_program_yields_checksummed_block() {
    let mut device = fresh_device();
    open_session(&mut device);
    device.push_bytes(&[b'R', 0x02, 0xfa, 0x00, 0x00, 0x10]);
    let req = device.read_request().unwrap().unwrap();
    assert!(matches!(req.request_type, RequestType::Read));
    assert_eq!(req.address, 0x02fa0000);
    assert_eq!(req.length, 0x10);
    let resp = device.process(&req).unwrap().unwrap();
    assert_eq!(resp.packet.len(), 24);
    assert_eq!(resp.packet[0], b'W');
    assert_eq!(&resp.packet[1..5], &[0x02, 0xfa, 0x00, 0x00]);
    assert_eq!(resp.packet[5], 0x10);
    let block: [u8; 16] = [
        0x00, 0x00, 0x00, 0x00, 0x01, 0x01, 0x01, 0x00, 0x00, 0x01, 0x01, 0x20, 0x20, 0x20, 0x20,
        0xff,
    ];
    assert_eq!(&resp.packet[6..22], &block);
    let sum: u32 = 0x02 + 0xfa + 0x10 + block.iter().map(|&b| b as u32).sum::<u32>();
    assert_eq!(resp.packet[22], (sum % 256) as u8);
    assert_eq!(resp.packet[23], 0x06);
}

#[test]
fn end_in_program_closes_session_and_rotates_sink_once() {
    let log = Rc::new(RefCell::new(Vec::new()));
    let resets = Rc::new(RefCell::new(0u32));
    let writer = RecordingWriter { log: log.clone(), resets: resets.clone() };
    let mut device = Device::new(DJMD5X::new(Some(writer)));
    device.push_bytes(b"PROGRAM");
    let req = device.read_request().unwrap().unwrap();
    device.process(&req).unwrap().unwrap();
    device.push_bytes(b"END");
    let req = device.read_request().unwrap().unwrap();
    assert!(matches!(req.request_type, RequestType::End));
    // no response is produced for END, and the sink is rotated exactly once
    let resp = device.process(&req).unwrap();
    assert!(resp.is_none());
    assert_eq!(*resets.borrow(), 1);
    assert!(!device.is_ready());
}

#[test]
fn write_in_program_is_acked_and_forwarded() {
    let log = Rc::new(RefCell::new(Vec::new()));
    let resets = Rc::new(RefCell::new(0u32));
    let writer = RecordingWriter { log: log.clone(), resets: resets.clone() };
    let mut device = Device::new(DJMD5X::new(Some(writer)));
    device.push_bytes(b"PROGRAM");
    let req = device.read_request().unwrap().unwrap();
    device.process(&req).unwrap().unwrap();
    let payload: [u8; 16] = [
        0x10, 0x11, 0x12, 0x13, 0x14, 0x15, 0x16, 0x17, 0x18, 0x19, 0x1a, 0x1b, 0x1c, 0x1d, 0x1e,
        0x1f,
    ];
    let mut frame: Vec<u8> = vec![b'W', 0x02, 0xfa, 0x00, 0x10, 0x10];
    frame.extend_from_slice(&payload);
    frame.extend_from_slice(&[0xab, 0x06]); // sender checksum and ack, consumed unchecked
    device.push_bytes(&frame);
    let req = device.read_request().unwrap().unwrap();
    assert!(matches!(req.request_type, RequestType::Write));
    assert_eq!(req.address, 0x02fa0010);
    assert_eq!(req.payload, payload);
    let resp = device.process(&req).unwrap().unwrap();
    assert_eq!(resp.packet, vec![0x06]);
    assert_eq!(log.borrow().as_slice(), &[(0x02fa0010u32, payload)]);
    // the whole 24-byte frame was consumed: the buffer accepts the next frame
    device.push_bytes(&[0x02]);
    let req = device.read_request().unwrap().unwrap();
    assert!(matches!(req.request_type, RequestType::DeviceInfo));
}

#[test]
fn write_length_byte_is_ignored_and_payload_is_fixed() {
    let mut device = fresh_device();
    open_session(&mut device);
    // the header claims 4 bytes, but 16 payload bytes and 2 trailer bytes
    // are consumed all the same
    let mut frame: Vec<u8> = vec![b'W', 0x02, 0xfa, 0x00, 0x20, 0x04];
    frame.extend_from_slice(&[0x42; 16]);
    frame.extend_from_slice(&[0x00, 0x06]);
    device.push_bytes(&frame);
    let req = device.read_request().unwrap().unwrap();
    assert!(matches!(req.request_type, RequestType::Write));
    assert_eq!(req.address, 0x02fa0020);
    assert_eq!(req.payload, [0x42; 16]);
    // nothing of the frame is left buffered
    device.push_bytes(b"END");
    let req = device.read_request().unwrap().unwrap();
    assert!(matches!(req.request_type, RequestType::End));
}

#[test]
fn write_without_sink_is_fatal() {
    let mut device = fresh_device();
    open_session(&mut device);
    let req = Request::write(0x02fa0000, [0; 16]);
    let err = device.process(&req).unwrap_err();
    assert!(matches!(err, DeviceError::Handler(_)));
    assert!(!device.is_ready());
}

#[test]
fn failing_sink_is_fatal() {
    let mut device = Device::new(DJMD5X::new(Some(FailingWriter)));
    device.push_bytes(b"PROGRAM");
    let req = device.read_request().unwrap().unwrap();
    device.process(&req).unwrap().unwrap();
    let req = Request::write(0x02fa0000, [0; 16]);
    let err = device.process(&req).unwrap_err();
    assert!(matches!(err, DeviceError::Handler(_)));
    assert!(!device.is_ready());
}

#[test]
fn frame_split_across_chunks_is_recognized_whole() {
    let mut device = fresh_device();
    device.push_bytes(b"PROG");
    assert!(device.read_request().unwrap().is_none());
    device.push_bytes(b"RAM");
    let req = device.read_request().unwrap().unwrap();
    assert!(matches!(req.request_type, RequestType::Program));
}

#[test]
fn read_frame_split_across_chunks_is_recognized_whole() {
    let mut device = fresh_device();
    open_session(&mut device);
    device.push_bytes(&[b'R', 0x02, 0xfa]);
    assert!(device.read_request().unwrap().is_none());
    device.push_bytes(&[0x00, 0x30, 0x10]);
    let req = device.read_request().unwrap().unwrap();
    assert!(matches!(req.request_type, RequestType::Read));
    assert_eq!(req.address, 0x02fa0030);
    assert_eq!(req.length, 0x10);
}

#[test]
fn end_split_across_chunks_is_recognized_whole() {
    let mut device = fresh_device();
    open_session(&mut device);
    device.push_bytes(b"EN");
    assert!(device.read_request().unwrap().is_none());
    device.push_bytes(b"D");
    let req = device.read_request().unwrap().unwrap();
    assert!(matches!(req.request_type, RequestType::End));
}

#[test]
fn unknown_bytes_in_program_are_a_framing_error() {
    let mut device = fresh_device();
    open_session(&mut device);
    device.push_bytes(&[0x7f, 0x01]);
    let err = device.read_request().unwrap_err();
    match err {
        DeviceError::Framing(bytes) => assert_eq!(bytes, vec![0x7f, 0x01]),
        _ => panic!("expected a framing error"),
    }
    assert!(!device.is_ready());
}

#[test]
fn end_lookalike_is_a_framing_error() {
    let mut device = fresh_device();
    open_session(&mut device);
    device.push_bytes(b"ENX");
    let err = device.read_request().unwrap_err();
    assert!(matches!(err, DeviceError::Framing(_)));
    assert!(!device.is_ready());
}

#[test]
fn garbage_in_open_is_ignored_until_program() {
    let mut device = fresh_device();
    device.push_bytes(&[0x01, 0x02, 0x03]);
    assert!(device.read_request().unwrap().is_none());
    assert!(device.is_ready());
}

#[test]
fn request_out_of_state_is_rejected_without_response() {
    let mut device = fresh_device();
    // DeviceInfo is not legal in Open
    let req = Request::device_info();
    let err = device.process(&req).unwrap_err();
    assert!(matches!(err, DeviceError::Protocol));
    assert!(!device.is_ready());
}

#[test]
fn program_repeated_in_program_is_rejected() {
    let mut device = fresh_device();
    open_session(&mut device);
    let req = Request::program();
    let err = device.process(&req).unwrap_err();
    assert!(matches!(err, DeviceError::Protocol));
    assert!(!device.is_ready());
}

#[test]
fn read_of_unknown_address_is_fatal() {
    let mut device = fresh_device();
    open_session(&mut device);
    device.push_bytes(&[b'R', 0x00, 0x00, 0x00, 0x00, 0x10]);
    let req = device.read_request().unwrap().unwrap();
    let err = device.process(&req).unwrap_err();
    assert!(matches!(err, DeviceError::Handler(_)));
    assert!(!device.is_ready());
}

#[test]
fn no_request_never_consumes_bytes() {
    let mut device = fresh_device();
    open_session(&mut device);
    // an incomplete write frame stays buffered across many attempts
    device.push_bytes(&[b'W', 0x02, 0xfa, 0x00, 0x00, 0x10, 0x01]);
    for _ in 0..3 {
        assert!(device.read_request().unwrap().is_none());
    }
    let mut rest: Vec<u8> = Vec::new();
    rest.extend_from_slice(&[0; 15]); // rest of the payload
    rest.extend_from_slice(&[0x00, 0x06]); // trailer
    device.push_bytes(&rest);
    let req = device.read_request().unwrap().unwrap();
    assert!(matches!(req.request_type, RequestType::Write));
    assert_eq!(req.payload[0], 0x01);
    assert_eq!(req.payload[1], 0x00);
}

#[test]
fn terminal_states_are_never_left() {
    // a closed session rejects every further request and stays closed
    let mut device = fresh_device();
    open_session(&mut device);
    device.push_bytes(b"END");
    let req = device.read_request().unwrap().unwrap();
    assert!(device.process(&req).unwrap().is_none());
    assert!(!device.is_ready());
    let err = device.process(&Request::program()).unwrap_err();
    assert!(matches!(err, DeviceError::Protocol));
    assert!(!device.is_ready());
    // likewise a session that died on a framing error
    let mut device = fresh_device();
    open_session(&mut device);
    device.push_bytes(&[0x7f]);
    assert!(device.read_request().is_err());
    let err = device.process(&Request::device_info()).unwrap_err();
    assert!(matches!(err, DeviceError::Protocol));
    assert!(!device.is_ready());
}

#[test]
fn send_response_returns_the_wire_bytes() {
    let device = fresh_device();
    let resp = anytone_emu::response::Response::program_ok();
    let bytes = device.send_response(&resp);
    assert_eq!(bytes, resp.packet);
}
