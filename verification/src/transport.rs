//! Collaborator contracts of the driver and its error taxonomy.
//!
//! The driver itself never touches the bus or the clock: it goes through
//! these small capability traits, which the surrounding system (or a
//! test harness) implements.

use vstd::prelude::*;

verus! {

/// Why a driver operation failed.
#[derive(Debug)]
pub enum Error<E> {
    /// The bus reported a fault; the collaborator's error is carried
    /// verbatim and never retried by this layer.
    Transport(E),
    /// The acknowledge-and-rearm handshake completed all writes and
    /// delays, but the controller did not reach the expected post-rearm
    /// line state.  Distinguishes a protocol failure from a bus fault.
    ClearInterruptFailed,
}

/// Blocking register transport on the two-wire bus.
///
/// Implementations perform the raw bus traffic; the driver decides what
/// to send and how to interpret what comes back.
pub trait RegisterTransport {
    type BusError;

    /// Writes `bytes` to the device at bus address `addr`.
    fn bus_write(&mut self, addr: u8, bytes: &[u8]) -> Result<(), Self::BusError>;

    /// Reads `len` bytes from the device at bus address `addr`.
    fn bus_read(&mut self, addr: u8, len: usize) -> Result<Vec<u8>, Self::BusError>;

    /// One atomic bus transaction of two write segments, in order, with
    /// no other bus traffic interleaved between them.
    fn bus_transaction(&mut self, addr: u8, first: &[u8], second: &[u8]) -> Result<
        (),
        Self::BusError,
    >;
}

/// Blocking delay provider used to wait out the handshake's settling
/// times.
pub trait DelayProvider {
    /// Busy-waits for `us` microseconds.
    fn delay_us(&mut self, us: u32);

    /// Busy-waits for `ms` milliseconds.
    fn delay_ms(&mut self, ms: u32);
}

} // verus!
