use vstd::prelude::*;

use crate::devicehandler::{DeviceHandler, HandlerError};
use crate::framing::{be32_at, frame_of, FrameOutcome};
use crate::request::{Request, RequestModel};
use crate::response::{
    device_info_bytes, program_ok_bytes, read_response_bytes, write_ack_bytes, Response,
};

verus! {

/// The session state. `Open` is the initial state; `Error` and `Closed`
/// end the session.
pub enum DeviceState {
    Open,
    Program,
    Error,
    Closed,
}

/// Why a session died. `Framing` carries the buffered bytes that match no
/// frame, so they can be reported instead of silently dropped; `Protocol`
/// marks a well-formed request that the current state does not permit;
/// `Handler` wraps a failure of the memory handler or its sink.
#[derive(Debug)]
pub enum DeviceError {
    Framing(Vec<u8>),
    Protocol,
    Handler(HandlerError),
}

/// Mathematical model of the engine: the session state, the bytes buffered
/// and not yet consumed, and the memory handler it drives.
pub ghost struct DeviceModel<H> {
    pub state: DeviceState,
    pub buffer: Seq<u8>,
    pub handler: H,
}

/// The protocol engine: owns the receive buffer for one session, recognizes
/// command frames in it, and drives the session state machine and the
/// memory handler.
pub struct Device<H: DeviceHandler> {
    state: DeviceState,
    buffer: Vec<u8>,
    handler: H,
}

impl<H: DeviceHandler> View for Device<H> {
    type V = DeviceModel<H>;

    closed spec fn view(&self) -> DeviceModel<H> {
        DeviceModel { state: self.state, buffer: self.buffer@, handler: self.handler }
    }
}

impl<H: DeviceHandler> Device<H> {
    /// A fresh engine for one session: state `Open`, an empty buffer, and
    /// the given memory handler bound for the session's lifetime.
    pub fn new(handler: H) -> (d: Device<H>)
        ensures
            d@.state == DeviceState::Open,
            d@.buffer == Seq::<u8>::empty(),
            d@.handler == handler,
    {
        let d = Device { state: DeviceState::Open, buffer: Vec::new(), handler };
        proof {
            assert(d@.buffer =~= Seq::<u8>::empty());
        }
        d
    }

    /// The session can still make progress: its state is neither `Error`
    /// nor `Closed`. The caller must also check that its transport is
    /// still open.
    pub fn is_ready(&self) -> (r: bool)
        ensures
            r == (self@.state != DeviceState::Error && self@.state != DeviceState::Closed),
    {
        match self.state {
            DeviceState::Error => false,
            DeviceState::Closed => false,
            _ => true,
        }
    }

    /// Appends bytes delivered by the transport to the tail of the receive
    /// buffer, in order, without touching anything else.
    pub fn push_bytes(&mut self, data: &[u8])
        ensures
            final(self)@.buffer == old(self)@.buffer + data@,
            final(self)@.state == old(self)@.state,
            final(self)@.handler == old(self)@.handler,
    {
        let mut i: usize = 0;
        while i < data.len()
            invariant
                i <= data@.len(),
                self@.buffer =~= old(self)@.buffer + data@.take(i as int),
                self@.state == old(self)@.state,
                self@.handler == old(self)@.handler,
            decreases data@.len() - i,
        {
            let b = data[i];
            self.buffer.push(b);
            i = i + 1;
        }
        proof {
            assert(data@.take(data@.len() as int) =~= data@);
        }
    }

    /// True exactly when the receive buffer begins with `string`.
    fn has_string(&self, string: &[u8]) -> (r: bool)
        ensures
            r == (self@.buffer.len() >= string@.len() && (forall|i: int|
                0 <= i < string@.len() ==> self@.buffer[i] == string@[i])),
    {
        if self.buffer.len() < string.len() {
            return false;
        }
        let mut i: usize = 0;
        while i < string.len()
            invariant
                i <= string@.len(),
                string@.len() <= self@.buffer.len(),
                forall|j: int| 0 <= j < i ==> self@.buffer[j] == string@[j],
            decreases string@.len() - i,
        {
            if self.buffer[i] != string[i] {
                return false;
            }
            i = i + 1;
        }
        true
    }

    /// Removes the first `n` bytes of the receive buffer.
    fn consume(&mut self, n: usize)
        requires
            n <= old(self)@.buffer.len(),
        ensures
            final(self)@.buffer == old(self)@.buffer.skip(n as int),
            final(self)@.state == old(self)@.state,
            final(self)@.handler == old(self)@.handler,
    {
        let mut rest: Vec<u8> = Vec::new();
        let mut i: usize = n;
        while i < self.buffer.len()
            invariant
                n <= i <= self@.buffer.len(),
                self@ == old(self)@,
                rest@ =~= self@.buffer.subrange(n as int, i as int),
            decreases self@.buffer.len() - i,
        {
            let b = self.buffer[i];
            rest.push(b);
            i = i + 1;
        }
        proof {
            assert(rest@ =~= old(self)@.buffer.skip(n as int));
        }
        self.buffer = rest;
    }

    /// The big-endian 32-bit integer at offsets `i .. i + 4` of the buffer.
    fn read_be32(&self, i: usize) -> (r: u32)
        requires
            i + 4 <= self@.buffer.len(),
            i + 4 <= usize::MAX,
        ensures
            r == be32_at(self@.buffer, i as int),
    {
        (self.buffer[i] as u32) * 0x1000000 + (self.buffer[i + 1] as u32) * 0x10000 + (self.buffer[i
            + 2] as u32) * 0x100 + (self.buffer[i + 3] as u32)
    }

    /// Tries to recognize one command frame at the head of the receive
    /// buffer, keyed by the session state. On a match exactly the matched
    /// bytes are removed and the request is returned; while no complete
    /// frame is buffered nothing is consumed and no request is returned;
    /// bytes that can begin no legal frame are a framing error, which is
    /// fatal for the session and reports the offending bytes unconsumed.
    pub fn read_request(&mut self) -> (r: Result<Option<Request>, DeviceError>)
        ensures
            final(self)@.handler == old(self)@.handler,
            match frame_of(old(self)@.state, old(self)@.buffer) {
                FrameOutcome::Pending => r matches Ok(q) && q is None && final(self)@ == old(self)@,
                FrameOutcome::Matched { req, used } => (r matches Ok(q) && q matches Some(rq)
                    && rq@ == req) && final(self)@.state == old(self)@.state && final(self)@.buffer == old(self)@.buffer.skip(used),
                FrameOutcome::Invalid => (r matches Err(e) && e matches DeviceError::Framing(d)
                    && d@ == old(self)@.buffer) && final(self)@.state == DeviceState::Error
                    && final(self)@.buffer == old(self)@.buffer,
            },
    {
        match self.state {
            DeviceState::Open => {
                let marker: [u8; 7] = [0x50, 0x52, 0x4f, 0x47, 0x52, 0x41, 0x4d];
                if self.has_string(marker.as_slice()) {
                    proof {
                        assert(crate::framing::starts_with(
                            self@.buffer,
                            crate::framing::program_marker(),
                        ));
                    }
                    self.consume(7);
                    Ok(Some(Request::program()))
                } else {
                    proof {
                        assert(!crate::framing::starts_with(
                            self@.buffer,
                            crate::framing::program_marker(),
                        ));
                    }
                    Ok(None)
                }
            },
            DeviceState::Program => {
                if self.buffer.len() == 0 {
                    return Ok(None);
                }
                let b0 = self.buffer[0];
                if b0 == 0x02 {
                    self.consume(1);
                    Ok(Some(Request::device_info()))
                } else if b0 == 0x52 {
                    if self.buffer.len() >= 6 {
                        let address = self.read_be32(1);
                        let length = self.buffer[5];
                        self.consume(6);
                        Ok(Some(Request::read(address, length)))
                    } else {
                        Ok(None)
                    }
                } else if b0 == 0x57 {
                    if self.buffer.len() >= 24 {
                        let address = self.read_be32(1);
                        let mut payload: [u8; 16] = [0; 16];
                        let mut i: usize = 0;
                        while i < 16
                            invariant
                                i <= 16,
                                self@.buffer.len() >= 24,
                                forall|j: int|
                                    0 <= j < i ==> payload@[j] == self@.buffer[6 + j],
                            decreases 16 - i,
                        {
                            let b = self.buffer[6 + i];
                            payload[i] = b;
                            i = i + 1;
                        }
                        proof {
                            assert(payload@ =~= self@.buffer.subrange(6, 22));
                        }
                        // The length byte at offset 5 is part of the header but the
                        // payload is always 16 bytes; the two trailer bytes after it
                        // are consumed unchecked.
                        self.consume(24);
                        Ok(Some(Request::write(address, payload)))
                    } else {
                        Ok(None)
                    }
                } else if b0 == 0x45 {
                    let marker: [u8; 3] = [0x45, 0x4e, 0x44];
                    if self.has_string(marker.as_slice()) {
                        proof {
                            assert(crate::framing::starts_with(
                                self@.buffer,
                                crate::framing::end_marker(),
                            ));
                        }
                        self.consume(3);
                        Ok(Some(Request::end()))
                    } else if self.buffer.len() == 1 || (self.buffer.len() == 2 && self.buffer[1]
                        == 0x4e) {
                        proof {
                            assert(crate::framing::strict_prefix_of(
                                self@.buffer,
                                crate::framing::end_marker(),
                            ));
                        }
                        Ok(None)
                    } else {
                        proof {
                            assert(!crate::framing::starts_with(
                                self@.buffer,
                                crate::framing::end_marker(),
                            ));
                            assert(!crate::framing::strict_prefix_of(
                                self@.buffer,
                                crate::framing::end_marker(),
                            ));
                        }
                        let bytes = self.buffered_bytes();
                        self.state = DeviceState::Error;
                        Err(DeviceError::Framing(bytes))
                    }
                } else {
                    let bytes = self.buffered_bytes();
                    self.state = DeviceState::Error;
                    Err(DeviceError::Framing(bytes))
                }
            },
            DeviceState::Error => Ok(None),
            DeviceState::Closed => Ok(None),
        }
    }

    /// A copy of the bytes currently buffered, for error reporting.
    fn buffered_bytes(&self) -> (r: Vec<u8>)
        ensures
            r@ == self@.buffer,
    {
        let mut out: Vec<u8> = Vec::new();
        let mut i: usize = 0;
        while i < self.buffer.len()
            invariant
                i <= self@.buffer.len(),
                out@ =~= self@.buffer.take(i as int),
            decreases self@.buffer.len() - i,
        {
            let b = self.buffer[i];
            out.push(b);
            i = i + 1;
        }
        proof {
            assert(out@ =~= self@.buffer);
        }
        out
    }

    /// Drives the session state machine for one request. Exactly the pairs
    /// of the transition table produce a new state and, except for `End`, a
    /// response; every other pair is rejected with no response: from a live
    /// state the session moves to `Error`, while the terminal states
    /// `Error` and `Closed` are never left. A handler failure is fatal the
    /// same way. The receive buffer is never touched here.
    pub fn process(&mut self, request: &Request) -> (r: Result<Option<Response>, DeviceError>)
        ensures
            final(self)@.buffer == old(self)@.buffer,
            match (old(self)@.state, request@) {
                (DeviceState::Open, RequestModel::Program) => final(self)@.state
                    == DeviceState::Program && final(self)@.handler == old(self)@.handler && (
                r matches Ok(q) && q matches Some(resp) && resp@ == program_ok_bytes()),
                (DeviceState::Program, RequestModel::DeviceInfo) => final(self)@.state
                    == DeviceState::Program && final(self)@.handler == old(self)@.handler && (
                r matches Ok(q) && q matches Some(resp) && resp@ == device_info_bytes(
                    old(self)@.handler.model_spec(),
                    old(self)@.handler.version_spec(),
                )),
                (DeviceState::Program, RequestModel::Read { address, length }) => final(self)@.handler
                    == old(self)@.handler && match old(self)@.handler.read_result(address) {
                    Some(block) => final(self)@.state == DeviceState::Program && (
                    r matches Ok(q) && q matches Some(resp) && resp@ == read_response_bytes(
                        address,
                        block,
                    )),
                    None => final(self)@.state == DeviceState::Error && (r matches Err(e)
                        && e matches DeviceError::Handler(h)
                        && h == HandlerError::UnknownAddress),
                },
                (DeviceState::Program, RequestModel::Write { address, payload }) => match r {
                    Ok(q) => (q matches Some(resp) && resp@ == write_ack_bytes())
                        && final(self)@.state == DeviceState::Program,
                    Err(e) => final(self)@.state == DeviceState::Error && (
                    e matches DeviceError::Handler(h) && (h == HandlerError::NoWriter || h
                        == HandlerError::Sink)),
                },
                (DeviceState::Program, RequestModel::End) => match r {
                    Ok(q) => q is None && final(self)@.state == DeviceState::Closed,
                    Err(e) => final(self)@.state == DeviceState::Error && (
                    e matches DeviceError::Handler(h) && h == HandlerError::Sink),
                },
                (DeviceState::Error, _) => final(self)@.state == DeviceState::Error && final(self)@.handler
                    == old(self)@.handler && (r matches Err(e) && e == DeviceError::Protocol),
                (DeviceState::Closed, _) => final(self)@.state == DeviceState::Closed && final(self)@.handler
                    == old(self)@.handler && (r matches Err(e) && e == DeviceError::Protocol),
                _ => final(self)@.state == DeviceState::Error && final(self)@.handler == old(self)@.handler && (r matches Err(e) && e == DeviceError::Protocol),
            },
    {
        match self.state {
            DeviceState::Open => {
                match request.request_type {
                    crate::request::RequestType::Program => {
                        self.state = DeviceState::Program;
                        Ok(Some(Response::program_ok()))
                    },
                    _ => {
                        self.state = DeviceState::Error;
                        Err(DeviceError::Protocol)
                    },
                }
            },
            DeviceState::Program => {
                match request.request_type {
                    crate::request::RequestType::DeviceInfo => {
                        let model = self.handler.model();
                        let version = self.handler.version();
                        Ok(Some(Response::device_info(model.as_slice(), version.as_slice())))
                    },
                    crate::request::RequestType::Read => {
                        match self.handler.read(request.address) {
                            Ok(block) => {
                                Ok(Some(Response::read(request.address, block.as_slice())))
                            },
                            Err(e) => {
                                self.state = DeviceState::Error;
                                Err(DeviceError::Handler(e))
                            },
                        }
                    },
                    crate::request::RequestType::Write => {
                        match self.handler.write(request.address, &request.payload) {
                            Ok(u) => Ok(Some(Response::write())),
                            Err(e) => {
                                self.state = DeviceState::Error;
                                Err(DeviceError::Handler(e))
                            },
                        }
                    },
                    crate::request::RequestType::End => {
                        match self.handler.end() {
                            Ok(u) => {
                                self.state = DeviceState::Closed;
                                Ok(None)
                            },
                            Err(e) => {
                                self.state = DeviceState::Error;
                                Err(DeviceError::Handler(e))
                            },
                        }
                    },
                    crate::request::RequestType::Program => {
                        self.state = DeviceState::Error;
                        Err(DeviceError::Protocol)
                    },
                }
            },
            DeviceState::Error => Err(DeviceError::Protocol),
            DeviceState::Closed => Err(DeviceError::Protocol),
        }
    }

    /// The exact wire bytes of `response`, ready to be handed to the
    /// transport.
    pub fn send_response(&self, response: &Response) -> (r: Vec<u8>)
        ensures
            r@ == response@,
    {
        let mut out: Vec<u8> = Vec::new();
        let mut i: usize = 0;
        while i < response.packet.len()
            invariant
                i <= response.packet@.len(),
                out@ =~= response.packet@.take(i as int),
            decreases response.packet@.len() - i,
        {
            let b = response.packet[i];
            out.push(b);
            i = i + 1;
        }
        proof {
            assert(out@ =~= response.packet@);
        }
        out
    }
}

} // verus!
