//! Register-level access to a BME280 environmental sensor over SPI.
//!
//! Every register access is one *framed transaction*: the chip-select line is
//! driven low, one or two duplex transfers are clocked through the bus, and the
//! line is driven high again.  This crate decides what happens in such a
//! transaction, and proves it; it never touches the hardware itself.  The owner
//! of the bus and of the pin performs each [`Request`] that a [`Transaction`]
//! asks for and hands back the [`Reply`].
//!
//! * [`protocol`] is the mathematical model: the plan of a transaction and
//!   what each outcome leads to.
//! * [`transaction`] is the executable transaction, proved against the model.
//! * [`laws`] states what holds of every run.
//! * [`spi`] is the adapter that owns the handles between transactions.
//! * [`error`] is the error model.

pub mod error;
pub mod laws;
pub mod protocol;
pub mod spi;
pub mod transaction;

pub use error::{Error, SPIError};
pub use protocol::{
    Shape, BME280_H_CALIB_DATA_LEN, BME280_P_T_CALIB_DATA_LEN, BME280_P_T_H_DATA_LEN,
};
pub use spi::BME280;
pub use transaction::{Progress, Reply, Request, Transaction};
