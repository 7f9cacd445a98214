//! DroneCAN protocol core: classification and encoding of 29-bit extended CAN
//! identifiers, and reassembly of multi-frame transfers into a contiguous
//! payload.

pub mod id;
pub mod transfer;

pub use id::Id;
pub use transfer::Error;
pub use transfer::Tail;
pub use transfer::Transfer;
