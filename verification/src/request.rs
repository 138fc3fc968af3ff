use vstd::prelude::*;

verus! {

/// The kind of a command frame sent by the programming software.
#[derive(Debug)]
pub enum RequestType {
    Program,
    DeviceInfo,
    Read,
    Write,
    End,
}

/// Mathematical model of a request: the kind of the frame together with the
/// fields that are meaningful for that kind.
pub ghost enum RequestModel {
    Program,
    DeviceInfo,
    Read { address: u32, length: u8 },
    Write { address: u32, payload: Seq<u8> },
    End,
}

/// A decoded command frame. Only the fields that belong to the kind carry
/// information; the others are zeroed by the constructors.
#[derive(Debug)]
pub struct Request {
    pub request_type: RequestType,
    pub address: u32,
    pub length: u8,
    pub payload: [u8; 16],
}

impl View for Request {
    type V = RequestModel;

    open spec fn view(&self) -> RequestModel {
        match self.request_type {
            RequestType::Program => RequestModel::Program,
            RequestType::DeviceInfo => RequestModel::DeviceInfo,
            RequestType::Read => (RequestModel::Read { address: self.address, length: self.length }),
            RequestType::Write => (RequestModel::Write { address: self.address, payload: self.payload@ }),
            RequestType::End => RequestModel::End,
        }
    }
}

/// Sixteen zero bytes: the payload of every request that carries none.
pub open spec fn zero_payload() -> Seq<u8> {
    seq![
        0u8, 0u8, 0u8, 0u8, 0u8, 0u8, 0u8, 0u8, 0u8, 0u8, 0u8, 0u8, 0u8, 0u8, 0u8,
        0u8,
    ]
}

impl Request {
    /// The session-opening `PROGRAM` command.
    pub fn program() -> (r: Self)
        ensures
            r@ == RequestModel::Program,
            r.request_type == RequestType::Program,
            r.address == 0,
            r.length == 0,
            r.payload@ == zero_payload(),
    {
        let r = Request { request_type: RequestType::Program, address: 0, length: 0, payload: [0; 16] };
        proof {
            assert(r.payload@ =~= zero_payload());
        }
        r
    }

    /// The identity query sent right after the session is opened.
    pub fn device_info() -> (r: Self)
        ensures
            r@ == RequestModel::DeviceInfo,
            r.request_type == RequestType::DeviceInfo,
            r.address == 0,
            r.length == 0,
            r.payload@ == zero_payload(),
    {
        let r = Request { request_type: RequestType::DeviceInfo, address: 0, length: 0, payload: [0; 16] };
        proof {
            assert(r.payload@ =~= zero_payload());
        }
        r
    }

    /// A request for one block of memory at `addr`.
    pub fn read(addr: u32, len: u8) -> (r: Self)
        ensures
            r@ == (RequestModel::Read { address: addr, length: len }),
            r.request_type == RequestType::Read,
            r.address == addr,
            r.length == len,
            r.payload@ == zero_payload(),
    {
        let r = Request { request_type: RequestType::Read, address: addr, length: len, payload: [0; 16] };
        proof {
            assert(r.payload@ =~= zero_payload());
        }
        r
    }

    /// A request to store one 16-byte block at `addr`.
    pub fn write(addr: u32, payload: [u8; 16]) -> (r: Self)
        ensures
            r@ == (RequestModel::Write { address: addr, payload: payload@ }),
            r.request_type == RequestType::Write,
            r.address == addr,
            r.length == 16,
            r.payload == payload,
    {
        Request { request_type: RequestType::Write, address: addr, length: 16, payload: payload }
    }

    /// The session-closing `END` command.
    pub fn end() -> (r: Self)
        ensures
            r@ == RequestModel::End,
            r.request_type == RequestType::End,
            r.address == 0,
            r.length == 0,
            r.payload@ == zero_payload(),
    {
        let r = Request { request_type: RequestType::End, address: 0, length: 0, payload: [0; 16] };
        proof {
            assert(r.payload@ =~= zero_payload());
        }
        r
    }
}

} // verus!
