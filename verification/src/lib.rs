//! Driver for the SPD2010 capacitive touch controller, reached over a
//! two-wire serial bus.
//!
//! The crate covers the protocol layer of the driver: the register
//! addressing scheme, the status bitfield decoding, the touch-report data
//! model, and the interrupt acknowledge-and-rearm handshake.  The bus
//! transport, the delay provider and the interrupt line are collaborators
//! supplied by the caller through small capability traits.

pub mod bytes;
pub mod driver;
pub mod handshake;
pub mod interrupt;
pub mod regs;
pub mod report;
pub mod status;
pub mod transport;

pub use driver::SPD2010Touch;
pub use interrupt::InterruptInput;
pub use regs::{decode_register_address, encode_register_address};
pub use report::{FirmwareInfo, TouchData, TouchPoint};
pub use status::{HDPStatus, StatusHigh, StatusLow, TouchStatus};
pub use transport::{DelayProvider, Error, RegisterTransport};
