//! Client logic for PZEM-016 power meters that sit behind a Modbus gateway.
//!
//! Many meters share one gateway session and are told apart by their slave
//! address. The crate holds everything that decides or computes: how a failed
//! request is classified, when a read is tried again, and how register words
//! become measurements. The session itself is reached through [`PZEMConn`].

pub mod consts;
pub mod errors;
pub mod transport;
pub mod classify;
pub mod decode;
pub mod reader;
pub mod retry;
pub mod client;

pub use client::{action_read_input_registers, PZEM};
pub use decode::PZEMData;
pub use errors::PZEMError;
pub use transport::{PZEMConn, Word};
