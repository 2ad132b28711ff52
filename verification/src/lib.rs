//! Client library for the ADT75 temperature sensor of the Vorago REB1 board.
//!
//! The crate separates the sensor protocol from the wire: the register
//! selection state machine and the 12-bit two's-complement temperature
//! decoding are written against an abstract addressed bus, so they can be
//! verified once and driven by any transport (the board's I2C peripheral,
//! or a simulated bus for tests).

pub mod bus;
pub mod decoder;
pub mod sim;
pub mod temp_sensor;
