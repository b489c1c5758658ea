//! The error model shared by every bus operation.

use vstd::prelude::*;

verus! {

/// Error which occurred during an SPI transaction.
///
/// Each variant carries, untouched, the error value that the failing
/// capability reported.
#[derive(Clone, Copy, Debug, PartialEq, Eq)]
pub enum SPIError<SPIE, PinE> {
    /// The SPI implementation returned an error during a transfer.
    SPI(SPIE),
    /// The GPIO implementation returned an error while changing the
    /// chip-select pin state.
    Pin(PinE),
}

/// The error envelope handed to the measurement layer.
///
/// A bus transaction only ever produces [`Error::Bus`]; the other variants
/// belong to the layer that interprets the bytes read.
#[derive(Clone, Copy, Debug, PartialEq, Eq)]
pub enum Error<E> {
    /// The failure originated in the bus or in the chip-select pin.
    Bus(E),
    /// Calibration data has not been read yet.
    NoCalibrationData,
    /// The sensor delivered data that cannot be interpreted.
    InvalidData,
}

} // verus!
