//! Driver core for the AHT20 capacitive humidity/temperature sensor.
//!
//! The library holds the sensor protocol logic: the command catalogue, the
//! 8-bit checksum over measurement frames, the decoding of the 20-bit raw
//! humidity and temperature fields into physical units, the fixed-point
//! ASCII formatting of readings, and the session decisions taken after each
//! bus transaction (calibration handshake, busy flag, checksum validation,
//! soft-reset recovery). The two-wire bus, the serial link and the delay
//! timer are collaborators of the caller: the caller performs each transfer
//! and hands its outcome in as a plain value.

pub mod commands;
pub mod convert;
pub mod crc;
pub mod hex;
pub mod session;
