//! SAE J1939 building blocks: the 29-bit identifier, the NAME field, the
//! memory-access diagnostic messages, parameter signals and the receiving
//! side of the transport protocol.

pub mod diagnostic;
mod id;
pub mod name;
pub mod signal;
pub mod transport;

pub use id::Id;
pub use id::IdBuilder;
pub use id::PduFormat;
pub use id::Pgn;
