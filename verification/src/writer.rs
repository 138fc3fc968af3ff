use vstd::prelude::*;

verus! {

/// A failure of a sink while storing or rotating its output.
pub struct SinkError;

/// Durable storage for the blocks the programming software writes: `write`
/// appends one block to the current output unit, `reset` closes that unit
/// and begins a new one.
pub trait Writer: Sized {
    /// Appends the block at `addr` to the current output unit.
    fn write(&mut self, addr: u32, data: &[u8; 16]) -> (r: Result<(), SinkError>);

    /// Closes the current output unit and begins a new one.
    fn reset(&mut self) -> (r: Result<(), SinkError>);
}

} // verus!
