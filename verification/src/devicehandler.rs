use vstd::prelude::*;

verus! {

/// A failure of the memory handler: the programming software asked for an
/// address the model does not know, a write arrived with no sink bound, or
/// the sink itself failed.
#[derive(Debug)]
pub enum HandlerError {
    UnknownAddress,
    NoWriter,
    Sink,
}

/// The per-model memory capability the engine drives: a static identity,
/// a block lookup over a 32-bit address space in 16-byte blocks, a
/// side-effecting block write, and an end-of-session finalizer.
pub trait DeviceHandler: Sized {
    /// The model identity bytes, as a mathematical value.
    spec fn model_spec(&self) -> Seq<u8>;

    /// The hardware version bytes, as a mathematical value.
    spec fn version_spec(&self) -> Seq<u8>;

    /// The block the handler serves at `address`, if it knows the address.
    spec fn read_result(&self, address: u32) -> Option<Seq<u8>>;

    /// The model identity, 6 bytes.
    fn model(&self) -> (r: [u8; 6])
        ensures
            r@ == self.model_spec(),
    ;

    /// The hardware version, 6 bytes.
    fn version(&self) -> (r: [u8; 6])
        ensures
            r@ == self.version_spec(),
    ;

    /// Looks up the 16-byte block at `address`: a pure lookup that leaves
    /// the handler unchanged; an unknown address is an error, fatal for
    /// the session at the caller.
    fn read(&mut self, address: u32) -> (r: Result<[u8; 16], HandlerError>)
        ensures
            *final(self) == *old(self),
            match r {
                Ok(block) => old(self).read_result(address) == Some(block@),
                Err(e) => old(self).read_result(address) is None && e
                    == HandlerError::UnknownAddress,
            },
    ;

    /// Stores one 16-byte block at `address`, typically by forwarding it to
    /// a sink; it either succeeds, finds no sink bound, or fails in the
    /// sink — it never reports an unknown address.
    fn write(&mut self, address: u32, payload: &[u8; 16]) -> (r: Result<(), HandlerError>)
        ensures
            r is Ok || (r matches Err(e) && (e == HandlerError::NoWriter || e
                == HandlerError::Sink)),
    ;

    /// Finalizes the session's unit of work, e.g. rotates the sink's
    /// output; only the sink can make it fail. By default it does nothing.
    fn end(&mut self) -> (r: Result<(), HandlerError>)
        ensures
            r is Ok || (r matches Err(e) && e == HandlerError::Sink),
    {
        Ok(())
    }
}

} // verus!
