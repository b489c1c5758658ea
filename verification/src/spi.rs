//! The adapter that owns the bus, the chip-select pin and the delay source.

use vstd::prelude::*;
use crate::error::{Error, SPIError};

verus! {

/// Representation of a BME280 attached via SPI.
///
/// It owns the handle of the bus, the handle of the chip-select pin and a
/// delay source from construction until [`BME280::destroy`] hands them back.
/// The adapter keeps no state between transactions besides these handles.
#[derive(Debug)]
pub struct BME280<SPI, CS, D> {
    /// Concrete SPI device implementation.
    spi: SPI,
    /// Chip-select pin.
    cs: CS,
    /// Delay source, kept for the measurement layer.
    delay: D,
}

impl<SPI, CS, D> BME280<SPI, CS, D> {
    /// The adapter that holds exactly these handles.
    pub closed spec fn composed(spi: SPI, cs: CS, delay: D) -> Self {
        BME280 { spi, cs, delay }
    }

    /// The handles held: bus, chip-select pin, delay source.
    pub closed spec fn handles(self) -> (SPI, CS, D) {
        (self.spi, self.cs, self.delay)
    }

    /// Create a new BME280 struct.
    ///
    /// Chip-select must be driven high before the adapter exists, so that the
    /// device is deselected before any transaction runs: `deasserted` is what
    /// the pin reported of that.  If the pin failed, so does construction, with
    /// the pin's error; otherwise the adapter takes the three handles as they
    /// are.
    pub fn new<SPIE, PinE>(spi: SPI, cs: CS, delay: D, deasserted: Result<(), PinE>) -> (adapter:
        Result<Self, Error<SPIError<SPIE, PinE>>>)
        ensures
            adapter == (match deasserted {
                Ok(()) => Ok(Self::composed(spi, cs, delay)),
                Err(e) => Err(Error::Bus(SPIError::<SPIE, PinE>::Pin(e))),
            }),
    {
        match deasserted {
            Ok(()) => Ok(BME280 { spi, cs, delay }),
            Err(e) => Err(Error::Bus(SPIError::Pin(e))),
        }
    }

    /// Destroys the object and returns the underlying interfaces.
    ///
    /// After this function has been called, the bus can be used for a
    /// different device.
    pub fn destroy(self) -> (handles: (SPI, CS, D))
        ensures
            handles == self.handles(),
    {
        (self.spi, self.cs, self.delay)
    }

    /// Lends the bus, to perform a transfer that a transaction asks for.
    pub fn spi_mut(&mut self) -> (spi: &mut SPI)
        ensures
            *spi == old(self).handles().0,
            final(self).handles() == (*final(spi), old(self).handles().1, old(self).handles().2),
    {
        &mut self.spi
    }

    /// Lends the chip-select pin, to drive it as a transaction asks for.
    pub fn cs_mut(&mut self) -> (cs: &mut CS)
        ensures
            *cs == old(self).handles().1,
            final(self).handles() == (old(self).handles().0, *final(cs), old(self).handles().2),
    {
        &mut self.cs
    }

    /// Lends the delay source to the measurement layer.
    pub fn delay_mut(&mut self) -> (delay: &mut D)
        ensures
            *delay == old(self).handles().2,
            final(self).handles() == (old(self).handles().0, old(self).handles().1, *final(delay)),
    {
        &mut self.delay
    }

    /// An adapter composed of three handles holds exactly these: destroyed
    /// before any of them is lent out, it hands back what it was given.
    pub proof fn lemma_composed_handles(spi: SPI, cs: CS, delay: D)
        ensures
            Self::composed(spi, cs, delay).handles() == (spi, cs, delay),
    {
    }
}

} // verus!
