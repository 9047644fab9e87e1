//! Driver for a capacitive soil-moisture sensor on a register-addressed
//! two-wire bus.
//!
//! Every operation of the driver is exactly one bus transaction. The
//! contracts say which transaction is issued and how the reply is decoded,
//! over the sequence of exchanges of the bus handle the driver owns.
//!
//! The driver works on any [`bus::Bus`]. [`script::ScriptedBus`] is one that
//! lives in memory. A transport for real hardware implements
//! [`bus::RawBus`] and is wrapped in [`bus::Recorded`].

use crate::bus::{one_more, write_exchange, Bus, Exchange, Reply};
use crate::i2c::{
    moisture_request, Led, MoistureSensorI2c, MoistureSensorI2cError, LED_WRITE_FAILED,
    MOISTURE_READ_FAILED,
};
use vstd::prelude::*;

pub mod bus;
pub mod i2c;
pub mod script;

pub use crate::i2c::Address;

verus! {

/// The error of the sensor's operations.
#[derive(Debug)]
pub enum MoistureSensorError {
    /// A value could not be converted. The sensor's own operations never
    /// return it.
    ConversionError(String),
    /// A bus transaction failed. The text names the operation that failed.
    IOError(String),
    /// Any other failure. The sensor's own operations never return it.
    OtherError,
}

impl MoistureSensorError {
    /// This is an `IOError` that carries `text`.
    pub open spec fn is_io_error(self, text: Seq<char>) -> bool {
        self matches MoistureSensorError::IOError(t) && t@ == text
    }
}

/// A moisture sensor on a bus.
pub struct MoistureSensor<I2C> {
    dev: MoistureSensorI2c<I2C>,
}

/// What a moisture reading returns for each way its transaction can end:
/// the two bytes read as one number, or an `IOError` with the text of this
/// operation.
pub open spec fn moisture_level_outcome(
    reply: Reply,
    outcome: Result<u16, MoistureSensorError>,
) -> bool {
    match reply {
        Reply::Done { data } => {
            &&& data.len() == 2
            &&& outcome matches Ok(level)
            &&& level == crate::i2c::be_u16(data[0], data[1])
        },
        Reply::Fault => outcome matches Err(e) && e.is_io_error(MOISTURE_READ_FAILED@),
    }
}

impl<I2C: Bus> MoistureSensor<I2C> {
    /// The bus handle this value owns.
    pub closed spec fn bus(&self) -> I2C {
        self.dev.bus()
    }

    /// Every transaction made on the handle so far, oldest first.
    pub open spec fn traffic(&self) -> Seq<Exchange> {
        self.bus().traffic()
    }

    /// The device address every transaction of this value targets.
    pub closed spec fn address(&self) -> u8 {
        self.dev.address()
    }

    /// The sensor at `address` behind the handle `dev`. No transaction is
    /// made.
    pub fn new(dev: I2C, address: Address) -> (sensor: MoistureSensor<I2C>)
        ensures
            sensor.address() == address.raw(),
            sensor.bus() == dev,
    {
        let wrapper = MoistureSensorI2c::new(dev, u8::from(address));
        MoistureSensor { dev: wrapper }
    }

    /// The same as [`MoistureSensor::new`].
    pub fn build(dev: I2C, address: Address) -> (sensor: MoistureSensor<I2C>)
        ensures
            sensor.address() == address.raw(),
            sensor.bus() == dev,
    {
        MoistureSensor::new(dev, address)
    }

    /// Reads the moisture level: one combined transaction that sends the
    /// value command and reads two bytes, which spell the level with the
    /// most significant byte first.
    pub fn get_moisture_level(&mut self) -> (outcome: Result<u16, MoistureSensorError>)
        ensures
            final(self).address() == old(self).address(),
            one_more(
                old(self).traffic(),
                final(self).traffic(),
                moisture_request(old(self).address()),
            ),
            moisture_level_outcome(final(self).traffic().last().reply, outcome),
    {
        match self.dev.get_moisture_level() {
            Ok(level) => Ok(level),
            Err(MoistureSensorI2cError::IOError(m)) => Err(MoistureSensorError::IOError(m)),
        }
    }

    /// Switches the indicator on: one bus write of the single byte `0x01`.
    pub fn turn_on_led(&mut self) -> (outcome: Result<(), MoistureSensorError>)
        ensures
            final(self).address() == old(self).address(),
            final(self).traffic() == old(self).traffic().push(
                write_exchange(old(self).address(), seq![1u8], outcome is Ok),
            ),
            outcome matches Err(e) ==> e.is_io_error(LED_WRITE_FAILED@),
    {
        match self.dev.set_led(Led::On) {
            Ok(_) => Ok(()),
            Err(MoistureSensorI2cError::IOError(m)) => Err(MoistureSensorError::IOError(m)),
        }
    }

    /// Switches the indicator off: one bus write of the single byte `0x00`.
    pub fn turn_off_led(&mut self) -> (outcome: Result<(), MoistureSensorError>)
        ensures
            final(self).address() == old(self).address(),
            final(self).traffic() == old(self).traffic().push(
                write_exchange(old(self).address(), seq![0u8], outcome is Ok),
            ),
            outcome matches Err(e) ==> e.is_io_error(LED_WRITE_FAILED@),
    {
        match self.dev.set_led(Led::Off) {
            Ok(_) => Ok(()),
            Err(MoistureSensorI2cError::IOError(m)) => Err(MoistureSensorError::IOError(m)),
        }
    }

    /// Gives the bus handle back.
    pub fn release(self) -> (dev: I2C)
        ensures
            dev == self.bus(),
    {
        self.dev.release()
    }
}

} // verus!
