//! Transmit and receive buffers for the command set of the Semtech SX126x
//! family of sub-GHz radio transceivers.
//!
//! Each command is a value that owns a transmit buffer, built at
//! construction from typed parameters, and a receive buffer of the same
//! length. A transport borrows both through a [`wire::SpiDescriptor`],
//! performs the exchange, and the caller then decodes the reply with the
//! command's typed accessors. Nothing here allocates or performs I/O.

pub mod bitfields;
pub mod commands;
pub mod params;
pub mod registers;
pub mod wire;
