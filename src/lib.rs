//! Driver logic for an SX1261 sub-GHz radio transceiver reached over SPI.
//!
//! The library holds the parts of the driver that decide what goes on the
//! wire: the command opcode table, register address resolution, the byte
//! encoding of each command's parameters, and the chip-select transaction
//! discipline that brackets every transfer.
pub mod device;
pub mod encode;
pub mod protocol;
pub mod spi_wrapper;
