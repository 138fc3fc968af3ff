use vstd::prelude::*;

verus! {

/// The plain 8-bit additive checksum used by read responses: the wrapping
/// sum of all bytes, i.e. their sum modulo 256.
pub open spec fn checksum_of(data: Seq<u8>) -> u8
    decreases data.len(),
{
    if data.len() == 0 {
        0u8
    } else {
        ((checksum_of(data.drop_last()) + data.last()) % 256) as u8
    }
}

/// Computes the 8-bit additive checksum of `data`.
pub fn crc(data: &[u8]) -> (r: u8)
    ensures
        r == checksum_of(data@),
{
    let mut c: u8 = 0;
    let mut i: usize = 0;
    while i < data.len()
        invariant
            i <= data@.len(),
            c == checksum_of(data@.take(i as int)),
        decreases data@.len() - i,
    {
        proof {
            assert(data@.take(i + 1).drop_last() =~= data@.take(i as int));
            assert(data@.take(i + 1).last() == data@[i as int]);
        }
        c = ((c as u16 + data[i] as u16) % 256) as u8;
        i = i + 1;
    }
    proof {
        assert(data@.take(data@.len() as int) =~= data@);
    }
    c
}

/// The four bytes of `address` in big-endian order.
pub open spec fn be32_bytes(address: u32) -> Seq<u8> {
    seq![
        (address / 0x1000000) as u8,
        ((address / 0x10000) % 256) as u8,
        ((address / 0x100) % 256) as u8,
        (address % 256) as u8,
    ]
}

/// The checksummed part of a read response: the big-endian address, the
/// payload length byte, and the payload itself.
pub open spec fn read_body_bytes(address: u32, payload: Seq<u8>) -> Seq<u8> {
    be32_bytes(address) + seq![payload.len() as u8] + payload
}

/// Reply to `Program`: the literal bytes `Q`, `X` and the ack byte.
pub open spec fn program_ok_bytes() -> Seq<u8> {
    seq![0x51u8, 0x58u8, 0x06u8]
}

/// Reply to `DeviceInfo`: 16 bytes holding `I`, `D`, up to 6 bytes of the
/// model left-justified at offset 2 and zero-padded to offset 9, up to
/// 6 bytes of the version left-justified at offset 9 and zero-padded to
/// offset 15, and the ack byte last.
pub open spec fn device_info_bytes(model: Seq<u8>, version: Seq<u8>) -> Seq<u8> {
    let n = if model.len() < 6 { model.len() as int } else { 6int };
    let m = if version.len() < 6 { version.len() as int } else { 6int };
    Seq::new(16, |i: int|
        if i == 0 {
            0x49u8
        } else if i == 1 {
            0x44u8
        } else if 2 <= i && i < 2 + n {
            model[i - 2]
        } else if 9 <= i && i < 9 + m {
            version[i - 9]
        } else if i == 15 {
            0x06u8
        } else {
            0u8
        })
}

/// Reply to `Read`: `W`, then the checksummed body (address, length byte,
/// payload), then the checksum of that body, then the ack byte.
pub open spec fn read_response_bytes(address: u32, payload: Seq<u8>) -> Seq<u8> {
    seq![0x57u8] + read_body_bytes(address, payload)
        + seq![checksum_of(read_body_bytes(address, payload)), 0x06u8]
}

/// Reply to `Write`: the bare ack byte.
pub open spec fn write_ack_bytes() -> Seq<u8> {
    seq![0x06u8]
}

/// The kind of a reply frame.
#[derive(Debug)]
pub enum ResponseType {
    ProgramOk,
    DeviceInfo,
    Read,
    Write,
}

/// A reply frame, carrying its exact wire encoding.
#[derive(Debug)]
pub struct Response {
    pub response_type: ResponseType,
    pub packet: Vec<u8>,
}

impl View for Response {
    type V = Seq<u8>;

    open spec fn view(&self) -> Seq<u8> {
        self.packet@
    }
}

impl Response {
    /// The kind of this reply.
    pub open spec fn kind(&self) -> ResponseType {
        self.response_type
    }

    /// The acknowledgement of the `PROGRAM` command.
    pub fn program_ok() -> (r: Self)
        ensures
            r@ == program_ok_bytes(),
            r.kind() == ResponseType::ProgramOk,
    {
        let mut packet: Vec<u8> = Vec::new();
        packet.push(0x51);
        packet.push(0x58);
        packet.push(0x06);
        proof {
            assert(packet@ =~= program_ok_bytes());
        }
        Response { response_type: ResponseType::ProgramOk, packet }
    }

    /// The identity reply, built from the model and hardware version bytes.
    pub fn device_info(model: &[u8], hwversion: &[u8]) -> (r: Self)
        ensures
            r@ == device_info_bytes(model@, hwversion@),
            r.kind() == ResponseType::DeviceInfo,
    {
        let n: usize = if model.len() < 6 { model.len() } else { 6 };
        let m: usize = if hwversion.len() < 6 { hwversion.len() } else { 6 };
        let ghost target = device_info_bytes(model@, hwversion@);
        let mut packet: Vec<u8> = Vec::new();
        packet.push(0x49);
        packet.push(0x44);
        let mut i: usize = 0;
        while i < 7
            invariant
                i <= 7,
                n == if model@.len() < 6 { model@.len() as int } else { 6int },
                packet@.len() == 2 + i,
                target == device_info_bytes(model@, hwversion@),
                forall|j: int| 0 <= j < packet@.len() ==> packet@[j] == target[j],
            decreases 7 - i,
        {
            if i < n {
                packet.push(model[i]);
            } else {
                packet.push(0);
            }
            i = i + 1;
        }
        let mut i: usize = 0;
        while i < 6
            invariant
                i <= 6,
                m == if hwversion@.len() < 6 { hwversion@.len() as int } else { 6int },
                packet@.len() == 9 + i,
                target == device_info_bytes(model@, hwversion@),
                forall|j: int| 0 <= j < packet@.len() ==> packet@[j] == target[j],
            decreases 6 - i,
        {
            if i < m {
                packet.push(hwversion[i]);
            } else {
                packet.push(0);
            }
            i = i + 1;
        }
        packet.push(0x06);
        proof {
            assert(packet@ =~= target);
        }
        Response { response_type: ResponseType::DeviceInfo, packet }
    }

    /// The reply to a memory read: the address echoed back, the payload,
    /// the additive checksum and the ack byte.
    pub fn read(address: u32, payload: &[u8]) -> (r: Self)
        requires
            payload@.len() <= 16,
        ensures
            r@ == read_response_bytes(address, payload@),
            r.kind() == ResponseType::Read,
    {
        let mut body: Vec<u8> = Vec::new();
        body.push((address / 0x1000000) as u8);
        body.push(((address / 0x10000) % 256) as u8);
        body.push(((address / 0x100) % 256) as u8);
        body.push((address % 256) as u8);
        body.push(payload.len() as u8);
        let mut i: usize = 0;
        while i < payload.len()
            invariant
                i <= payload@.len(),
                payload@.len() <= 16,
                body@.len() == 5 + i,
                body@ =~= (be32_bytes(address) + seq![payload@.len() as u8] + payload@.take(
                    i as int,
                )),
            decreases payload@.len() - i,
        {
            body.push(payload[i]);
            i = i + 1;
        }
        proof {
            assert(payload@.take(payload@.len() as int) =~= payload@);
            assert(body@ =~= read_body_bytes(address, payload@));
        }
        let c = crc(body.as_slice());
        let mut packet: Vec<u8> = Vec::new();
        packet.push(0x57);
        let mut i: usize = 0;
        while i < body.len()
            invariant
                i <= body@.len(),
                packet@.len() == 1 + i,
                packet@ =~= seq![0x57u8] + body@.take(i as int),
            decreases body@.len() - i,
        {
            packet.push(body[i]);
            i = i + 1;
        }
        packet.push(c);
        packet.push(0x06);
        proof {
            assert(body@.take(body@.len() as int) =~= body@);
            assert(packet@ =~= read_response_bytes(address, payload@));
        }
        Response { response_type: ResponseType::Read, packet }
    }

    /// The acknowledgement of a memory write.
    pub fn write() -> (r: Self)
        ensures
            r@ == write_ack_bytes(),
            r.kind() == ResponseType::Write,
    {
        let mut packet: Vec<u8> = Vec::new();
        packet.push(0x06);
        proof {
            assert(packet@ =~= write_ack_bytes());
        }
        Response { response_type: ResponseType::Write, packet }
    }
}

/// The read response has the documented layout, byte for byte: `W` first,
/// the big-endian address at offsets 1 to 4, the payload length at offset
/// 5, the payload itself from offset 6, then the additive checksum of the
/// address, length and payload, and the ack byte last — 8 bytes more than
/// the payload in all.
pub proof fn lemma_read_response_layout(address: u32, payload: Seq<u8>)
    requires
        payload.len() <= 16,
    ensures
        read_response_bytes(address, payload).len() == 8 + payload.len(),
        read_response_bytes(address, payload)[0] == 0x57,
        read_response_bytes(address, payload).subrange(1, 5) == be32_bytes(address),
        read_response_bytes(address, payload)[5] == payload.len() as u8,
        read_response_bytes(address, payload).subrange(6, 6 + payload.len() as int) == payload,
        read_response_bytes(address, payload)[6 + payload.len() as int] == checksum_of(
            read_body_bytes(address, payload),
        ),
        read_response_bytes(address, payload)[7 + payload.len() as int] == 0x06,
{
    let r = read_response_bytes(address, payload);
    assert(r.subrange(1, 5) =~= be32_bytes(address));
    assert(r.subrange(6, 6 + payload.len() as int) =~= payload);
}

/// For an empty payload the read-response checksum is the sum of the four
/// big-endian address bytes and the (zero) length byte, modulo 256.
pub proof fn lemma_empty_read_checksum(address: u32)
    ensures
        checksum_of(read_body_bytes(address, Seq::<u8>::empty())) as int == (be32_bytes(address)[0]
            + be32_bytes(address)[1] + be32_bytes(address)[2] + be32_bytes(address)[3]) % 256,
{
    let body = read_body_bytes(address, Seq::<u8>::empty());
    let addr = be32_bytes(address);
    assert(body =~= addr + seq![0u8]);
    assert(body.drop_last() =~= addr);
    assert(checksum_of(body) == (checksum_of(addr) + 0) % 256);
    assert(addr.drop_last().drop_last().drop_last().drop_last() =~= Seq::<u8>::empty());
    assert(addr.drop_last().drop_last().drop_last() =~= seq![addr[0]]);
    assert(addr.drop_last().drop_last() =~= seq![addr[0], addr[1]]);
    assert(addr.drop_last() =~= seq![addr[0], addr[1], addr[2]]);
    assert(seq![addr[0]].drop_last() =~= Seq::<u8>::empty());
    assert(seq![addr[0], addr[1]].drop_last() =~= seq![addr[0]]);
    assert(seq![addr[0], addr[1], addr[2]].drop_last() =~= seq![addr[0], addr[1]]);
    assert(checksum_of(Seq::<u8>::empty()) == 0);
    assert(checksum_of(seq![addr[0]]) == (0 + addr[0]) % 256);
    assert(checksum_of(seq![addr[0], addr[1]]) == (checksum_of(seq![addr[0]]) + addr[1]) % 256);
    assert(checksum_of(seq![addr[0], addr[1], addr[2]]) == (checksum_of(seq![addr[0], addr[1]])
        + addr[2]) % 256);
    assert(checksum_of(addr) == (checksum_of(seq![addr[0], addr[1], addr[2]]) + addr[3]) % 256);
    assert(checksum_of(body) as int == (addr[0] + addr[1] + addr[2] + addr[3]) % 256) by {
        vstd::arithmetic::div_mod::lemma_add_mod_noop(addr[0] as int, addr[1] as int, 256);
        vstd::arithmetic::div_mod::lemma_add_mod_noop(
            (addr[0] + addr[1]) as int,
            addr[2] as int,
            256,
        );
        vstd::arithmetic::div_mod::lemma_add_mod_noop(
            (addr[0] + addr[1] + addr[2]) as int,
            addr[3] as int,
            256,
        );
        vstd::arithmetic::div_mod::lemma_small_mod(addr[0] as nat, 256);
        vstd::arithmetic::div_mod::lemma_small_mod(addr[1] as nat, 256);
        vstd::arithmetic::div_mod::lemma_small_mod(addr[2] as nat, 256);
        vstd::arithmetic::div_mod::lemma_small_mod(addr[3] as nat, 256);
        vstd::arithmetic::div_mod::lemma_mod_twice((addr[0] + addr[1]) as int, 256);
    }
}

} // verus!
