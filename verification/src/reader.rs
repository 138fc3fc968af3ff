use vstd::prelude::*;

verus! {

/// A failure of a source while producing a block.
pub struct SourceError;

/// A source of codeplug blocks, for emulating a radio whose memory comes
/// from a stored image rather than a built-in table.
pub trait Reader: Sized {
    /// The 16-byte block at `addr`.
    fn read(&mut self, addr: u32) -> (r: Result<[u8; 16], SourceError>);
}

} // verus!
