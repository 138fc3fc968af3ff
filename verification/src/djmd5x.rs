use vstd::prelude::*;

use crate::devicehandler::{DeviceHandler, HandlerError};
use crate::writer::Writer;

verus! {

/// The model identity the radio reports.
pub open spec fn djmd5x_model() -> Seq<u8> {
    seq![0x4au8, 0x4du8, 0x44u8, 0x35u8, 0x58u8, 0x00u8]
}

/// The hardware version the radio reports.
pub open spec fn djmd5x_version() -> Seq<u8> {
    seq![0x56u8, 0x31u8, 0x30u8, 0x30u8, 0x00u8, 0x00u8]
}

/// An all-zero block.
pub open spec fn zero_block() -> Seq<u8> {
    seq![
        0u8, 0u8, 0u8, 0u8, 0u8, 0u8, 0u8, 0u8, 0u8, 0u8, 0u8, 0u8, 0u8, 0u8, 0u8,
        0u8,
    ]
}

/// The radio's fixed read-only memory: the 16-byte blocks it serves, by
/// block address. Addresses outside this table are unknown.
pub open spec fn djmd5x_block(address: u32) -> Option<Seq<u8>> {
    if address == 0x02fa0000 {
        Some(
            seq![
                0x00u8, 0x00u8, 0x00u8, 0x00u8, 0x01u8, 0x01u8, 0x01u8, 0x00u8, 0x00u8, 0x01u8,
                0x01u8, 0x20u8, 0x20u8, 0x20u8, 0x20u8, 0xffu8,
            ],
        )
    } else if address == 0x02fa0010 {
        Some(
            seq![
                0x44u8, 0x38u8, 0x37u8, 0x38u8, 0x55u8, 0x56u8, 0x00u8, 0x01u8, 0x00u8, 0xffu8,
                0xffu8, 0xffu8, 0xffu8, 0xffu8, 0xffu8, 0xffu8,
            ],
        )
    } else if address == 0x02fa0020 {
        Some(
            seq![
                0xffu8, 0xffu8, 0xffu8, 0xffu8, 0x00u8, 0x00u8, 0xffu8, 0xffu8, 0x00u8, 0x00u8,
                0x00u8, 0x00u8, 0x00u8, 0x00u8, 0x00u8, 0x00u8,
            ],
        )
    } else if address == 0x02fa0050 {
        Some(
            seq![
                0x31u8, 0x32u8, 0x33u8, 0x34u8, 0x35u8, 0x36u8, 0x37u8, 0x38u8, 0xffu8, 0xffu8,
                0xffu8, 0xffu8, 0xffu8, 0xffu8, 0xffu8, 0xffu8,
            ],
        )
    } else if address == 0x02fa0030 || address == 0x02fa0040 || address == 0x02fa0060 || address
        == 0x02fa0070 || address == 0x02fa0080 || address == 0x02fa0090 || address == 0x02fa00a0
        || address == 0x02fa00b0 || address == 0x02fa00c0 || address == 0x02fa00d0 || address
        == 0x02fa00e0 || address == 0x02fa00f0 {
        Some(zero_block())
    } else {
        None
    }
}

/// An emulated DJ-MD5X handheld: a fixed identity, a small read-only
/// memory table, and an optional sink that receives the blocks the
/// programming software writes.
pub struct DJMD5X<W: Writer> {
    writer: Option<W>,
}

impl<W: Writer> DJMD5X<W> {
    /// Whether a sink is bound to receive written blocks.
    pub closed spec fn has_writer(&self) -> bool {
        self.writer is Some
    }

    /// Binds the handler to `writer`; with `None`, writes are rejected.
    pub fn new(writer: Option<W>) -> (d: Self)
        ensures
            d.has_writer() == (writer is Some),
    {
        DJMD5X { writer }
    }
}

impl<W: Writer> DeviceHandler for DJMD5X<W> {
    open spec fn model_spec(&self) -> Seq<u8> {
        djmd5x_model()
    }

    open spec fn version_spec(&self) -> Seq<u8> {
        djmd5x_version()
    }

    open spec fn read_result(&self, address: u32) -> Option<Seq<u8>> {
        djmd5x_block(address)
    }

    fn model(&self) -> (r: [u8; 6]) {
        let r: [u8; 6] = [0x4a, 0x4d, 0x44, 0x35, 0x58, 0x00];
        proof {
            assert(r@ =~= djmd5x_model());
        }
        r
    }

    fn version(&self) -> (r: [u8; 6]) {
        let r: [u8; 6] = [0x56, 0x31, 0x30, 0x30, 0x00, 0x00];
        proof {
            assert(r@ =~= djmd5x_version());
        }
        r
    }

    fn read(&mut self, address: u32) -> (r: Result<[u8; 16], HandlerError>) {
        if address == 0x02fa0000 {
            let b: [u8; 16] = [
                0x00,
                0x00,
                0x00,
                0x00,
                0x01,
                0x01,
                0x01,
                0x00,
                0x00,
                0x01,
                0x01,
                0x20,
                0x20,
                0x20,
                0x20,
                0xff,
            ];
            proof {
                assert(Some(b@) =~= djmd5x_block(address));
            }
            Ok(b)
        } else if address == 0x02fa0010 {
            let b: [u8; 16] = [
                0x44,
                0x38,
                0x37,
                0x38,
                0x55,
                0x56,
                0x00,
                0x01,
                0x00,
                0xff,
                0xff,
                0xff,
                0xff,
                0xff,
                0xff,
                0xff,
            ];
            proof {
                assert(Some(b@) =~= djmd5x_block(address));
            }
            Ok(b)
        } else if address == 0x02fa0020 {
            let b: [u8; 16] = [
                0xff,
                0xff,
                0xff,
                0xff,
                0x00,
                0x00,
                0xff,
                0xff,
                0x00,
                0x00,
                0x00,
                0x00,
                0x00,
                0x00,
                0x00,
                0x00,
            ];
            proof {
                assert(Some(b@) =~= djmd5x_block(address));
            }
            Ok(b)
        } else if address == 0x02fa0050 {
            let b: [u8; 16] = [
                0x31,
                0x32,
                0x33,
                0x34,
                0x35,
                0x36,
                0x37,
                0x38,
                0xff,
                0xff,
                0xff,
                0xff,
                0xff,
                0xff,
                0xff,
                0xff,
            ];
            proof {
                assert(Some(b@) =~= djmd5x_block(address));
            }
            Ok(b)
        } else if address == 0x02fa0030 || address == 0x02fa0040 || address == 0x02fa0060
            || address == 0x02fa0070 || address == 0x02fa0080 || address == 0x02fa0090 || address
            == 0x02fa00a0 || address == 0x02fa00b0 || address == 0x02fa00c0 || address
            == 0x02fa00d0 || address == 0x02fa00e0 || address == 0x02fa00f0 {
            let b: [u8; 16] = [
                0x00,
                0x00,
                0x00,
                0x00,
                0x00,
                0x00,
                0x00,
                0x00,
                0x00,
                0x00,
                0x00,
                0x00,
                0x00,
                0x00,
                0x00,
                0x00,
            ];
            proof {
                assert(b@ =~= zero_block());
            }
            Ok(b)
        } else {
            Err(HandlerError::UnknownAddress)
        }
    }

    fn write(&mut self, address: u32, payload: &[u8; 16]) -> (r: Result<(), HandlerError>)
        ensures
            final(self).has_writer() == old(self).has_writer(),
            match r {
                Ok(u) => old(self).has_writer(),
                Err(e) => match e {
                    HandlerError::NoWriter => !old(self).has_writer(),
                    HandlerError::Sink => old(self).has_writer(),
                    HandlerError::UnknownAddress => false,
                },
            },
    {
        match self.writer.as_mut() {
            Some(w) => match w.write(address, payload) {
                Ok(_) => Ok(()),
                Err(_) => Err(HandlerError::Sink),
            },
            None => Err(HandlerError::NoWriter),
        }
    }

    fn end(&mut self) -> (r: Result<(), HandlerError>)
        ensures
            final(self).has_writer() == old(self).has_writer(),
            !old(self).has_writer() ==> r is Ok,
            r is Ok || (r matches Err(e) && e == HandlerError::Sink && old(self).has_writer()),
    {
        match self.writer.as_mut() {
            Some(w) => match w.reset() {
                Ok(_) => Ok(()),
                Err(_) => Err(HandlerError::Sink),
            },
            None => Ok(()),
        }
    }
}

} // verus!
