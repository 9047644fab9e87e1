//! Register transport and device protocol of the sensor.
//!
//! The transport performs one register read or one register write per call.
//! The protocol maps each named operation onto exactly one transport call and
//! encodes or decodes its payload.

use crate::bus::{
    lemma_push_is_one_more, one_more, write_exchange, write_read_exchange, Bus, Exchange, Reply,
    Request,
};
use byteorder::{BigEndian, ByteOrder};
use vstd::prelude::*;

pub mod constants;

use self::constants::registers::{COMMAND_CHANGE_ADDRESS, COMMAND_GET_VALUE, SENSOR_STATUS};

verus! {

/// The error of the register transport and of the device protocol.
#[derive(Debug)]
pub enum MoistureSensorI2cError {
    /// A bus transaction failed. The text names the operation that failed.
    IOError(String),
}

impl MoistureSensorI2cError {
    /// The text the error carries.
    pub open spec fn message(self) -> Seq<char> {
        match self {
            MoistureSensorI2cError::IOError(text) => text@,
        }
    }
}

/// State of the on-board indicator.
#[derive(Clone, Copy, Debug, PartialEq, Eq, Structural)]
pub enum Led {
    Off,
    On,
}

impl Led {
    /// The command byte that puts the indicator into this state.
    pub open spec fn code(self) -> u8 {
        match self {
            Led::Off => 0,
            Led::On => 1,
        }
    }
}

impl From<Led> for u8 {
    fn from(item: Led) -> (code: u8) {
        match item {
            Led::Off => 0,
            Led::On => 1,
        }
    }
}

impl vstd::std_specs::convert::FromSpecImpl<Led> for u8 {
    open spec fn obeys_from_spec() -> bool {
        true
    }

    open spec fn from_spec(item: Led) -> u8 {
        item.code()
    }
}

/// The sensor's error flag.
#[derive(Clone, Copy, Debug, PartialEq, Eq, Structural)]
pub enum ErrorStatus {
    Off,
    On,
}

impl ErrorStatus {
    /// The flag as a number.
    pub open spec fn code(self) -> u8 {
        match self {
            ErrorStatus::Off => 0,
            ErrorStatus::On => 1,
        }
    }

    /// The error flag that a status byte carries in its lowest bit.
    pub open spec fn of_status_byte(status: u8) -> ErrorStatus {
        if status & 0x01 == 1 {
            ErrorStatus::On
        } else {
            ErrorStatus::Off
        }
    }

    /// Reads the error flag out of a status byte. Only bit 0 counts; the
    /// other bits are reserved and ignored.
    pub fn from_status_byte(status: u8) -> (flag: ErrorStatus)
        ensures
            flag == ErrorStatus::of_status_byte(status),
    {
        let bit: u8 = status & 0x01;
        assert(bit == 0 || bit == 1) by (bit_vector)
            requires
                bit == status & 0x01,
        ;
        ErrorStatus::from_bit(bit)
    }

    /// The flag for a single bit.
    fn from_bit(bit: u8) -> (flag: ErrorStatus)
        requires
            bit == 0 || bit == 1,
        ensures
            flag.code() == bit,
    {
        if bit == 0 {
            ErrorStatus::Off
        } else {
            ErrorStatus::On
        }
    }
}

impl From<ErrorStatus> for u8 {
    fn from(item: ErrorStatus) -> (code: u8) {
        match item {
            ErrorStatus::Off => 0,
            ErrorStatus::On => 1,
        }
    }
}

impl vstd::std_specs::convert::FromSpecImpl<ErrorStatus> for u8 {
    open spec fn obeys_from_spec() -> bool {
        true
    }

    open spec fn from_spec(item: ErrorStatus) -> u8 {
        item.code()
    }
}

/// A named bus address.
#[derive(Clone, Copy, Debug, PartialEq, Eq, Structural)]
pub enum Address {
    /// The address the sensor has when it leaves the factory.
    Default,
}

impl Address {
    /// The address as it goes onto the bus.
    pub open spec fn raw(self) -> u8 {
        match self {
            Address::Default => constants::addresses::DEFAULT,
        }
    }
}

impl From<Address> for u8 {
    fn from(item: Address) -> (raw: u8) {
        match item {
            Address::Default => constants::addresses::DEFAULT,
        }
    }
}

impl vstd::std_specs::convert::FromSpecImpl<Address> for u8 {
    open spec fn obeys_from_spec() -> bool {
        true
    }

    open spec fn from_spec(item: Address) -> u8 {
        item.raw()
    }
}

/// The number that two bytes spell, most significant byte first.
pub open spec fn be_u16(hi: u8, lo: u8) -> int {
    hi * 256 + lo
}

/// `byteorder::BigEndian::read_u16`: reads the first two bytes of `buf` as
/// one unsigned 16-bit number, most significant byte first. It panics on a
/// shorter `buf`, which the precondition rules out.
#[verifier::external_body]
fn read_u16_be(buf: &[u8]) -> (value: u16)
    requires
        buf@.len() >= 2,
    ensures
        value == be_u16(buf@[0], buf@[1]),
{
    BigEndian::read_u16(buf)
}

/// Text of the error of a failed register read.
pub const REGISTER_READ_FAILED: &'static str = "Error reading from register.";

/// Text of the error of a failed register write.
pub const REGISTER_WRITE_FAILED: &'static str = "Error writing to register.";

/// Text of the error of a failed moisture reading.
pub const MOISTURE_READ_FAILED: &'static str = "Error reading moisture level.";

/// Text of the error of a failed indicator command.
pub const LED_WRITE_FAILED: &'static str = "Error setting the LED.";

/// Text of the error of a failed status reading.
pub const STATUS_READ_FAILED: &'static str = "Error reading error status.";

/// Text of the error of a failed change of address.
pub const ADDRESS_WRITE_FAILED: &'static str = "Error setting address";

/// The sensor behind a bus handle.
///
/// The device address is fixed when the value is made. Changing the address
/// of the device with [`MoistureSensorI2c::set_address`] does not change it:
/// to talk to the device again, take the handle back with
/// [`MoistureSensorI2c::release`] and make a new value with the new address.
pub struct MoistureSensorI2c<I2C> {
    i2c: I2C,
    address: u8,
}

/// The buffer that a register write puts on the bus: the register first,
/// then the payload.
pub open spec fn register_frame(register: u8, payload: Seq<u8>) -> Seq<u8> {
    seq![register] + payload
}

/// The transaction of a moisture reading on the device at `address`.
pub open spec fn moisture_request(address: u8) -> Request {
    Request::WriteRead { address, bytes: seq![COMMAND_GET_VALUE], count: 2 }
}

/// What a moisture reading returns for each way its transaction can end:
/// the two bytes read as one number, or the error of this operation.
pub open spec fn moisture_outcome(
    reply: Reply,
    outcome: Result<u16, MoistureSensorI2cError>,
) -> bool {
    match reply {
        Reply::Done { data } => {
            &&& data.len() == 2
            &&& outcome matches Ok(level)
            &&& level == be_u16(data[0], data[1])
        },
        Reply::Fault => outcome matches Err(e) && e.message() == MOISTURE_READ_FAILED@,
    }
}

/// The transaction of a status reading on the device at `address`.
pub open spec fn status_request(address: u8) -> Request {
    Request::WriteRead { address, bytes: seq![SENSOR_STATUS], count: 1 }
}

/// What a status reading returns for each way its transaction can end: the
/// flag in the lowest bit of the byte read, or the error of this operation.
pub open spec fn status_outcome(
    reply: Reply,
    outcome: Result<ErrorStatus, MoistureSensorI2cError>,
) -> bool {
    match reply {
        Reply::Done { data } => {
            &&& data.len() == 1
            &&& outcome matches Ok(flag)
            &&& flag == ErrorStatus::of_status_byte(data[0])
        },
        Reply::Fault => outcome matches Err(e) && e.message() == STATUS_READ_FAILED@,
    }
}

/// Reads `buffer.len()` bytes from `register` of the sensor, in one combined
/// write-then-read transaction that sends the register alone. After a fault
/// the content of `buffer` is unspecified.
pub fn read_from_register<I2C: Bus>(
    dev: &mut MoistureSensorI2c<I2C>,
    register: u8,
    buffer: &mut [u8],
) -> (outcome: Result<(), MoistureSensorI2cError>)
    ensures
        final(dev).address() == old(dev).address(),
        final(buffer)@.len() == old(buffer)@.len(),
        final(dev).traffic() == old(dev).traffic().push(
            write_read_exchange(
                old(dev).address(),
                seq![register],
                old(buffer)@.len(),
                outcome is Ok,
                final(buffer)@,
            ),
        ),
        outcome matches Err(e) ==> e.message() == REGISTER_READ_FAILED@,
{
    let sent: [u8; 1] = [register];
    assert(sent@ =~= seq![register]);
    match dev.i2c.write_read(dev.address, &sent, buffer) {
        Ok(_) => Ok(()),
        Err(_) => Err(MoistureSensorI2cError::IOError(REGISTER_READ_FAILED.to_owned())),
    }
}

/// Writes `bytes` to `register` of the sensor: one bus write of the register
/// followed by `bytes`.
pub fn write_to_register<I2C: Bus>(
    dev: &mut MoistureSensorI2c<I2C>,
    register: u8,
    bytes: &[u8],
) -> (outcome: Result<(), MoistureSensorI2cError>)
    ensures
        final(dev).address() == old(dev).address(),
        final(dev).traffic() == old(dev).traffic().push(
            write_exchange(old(dev).address(), register_frame(register, bytes@), outcome is Ok),
        ),
        outcome matches Err(e) ==> e.message() == REGISTER_WRITE_FAILED@,
{
    let mut buffer: Vec<u8> = Vec::new();
    buffer.push(register);
    let mut i: usize = 0;
    while i < bytes.len()
        invariant
            i <= bytes@.len(),
            buffer@ == register_frame(register, bytes@.take(i as int)),
        decreases bytes@.len() - i,
    {
        buffer.push(bytes[i]);
        assert(bytes@.take(i + 1) =~= bytes@.take(i as int).push(bytes@[i as int]));
        i = i + 1;
    }
    assert(bytes@.take(i as int) =~= bytes@);
    match dev.i2c.write(dev.address, buffer.as_slice()) {
        Ok(_) => Ok(()),
        Err(_) => Err(MoistureSensorI2cError::IOError(REGISTER_WRITE_FAILED.to_owned())),
    }
}

impl<I2C: Bus> MoistureSensorI2c<I2C> {
    /// The bus handle this value owns.
    pub closed spec fn bus(&self) -> I2C {
        self.i2c
    }

    /// Every transaction made on the handle so far, oldest first.
    pub open spec fn traffic(&self) -> Seq<Exchange> {
        self.bus().traffic()
    }

    /// The device address every transaction of this value targets.
    pub closed spec fn address(&self) -> u8 {
        self.address
    }

    /// The sensor at `address` behind the handle `i2c`. No transaction is
    /// made.
    pub fn new(i2c: I2C, address: u8) -> (sensor: MoistureSensorI2c<I2C>)
        ensures
            sensor.address() == address,
            sensor.bus() == i2c,
    {
        MoistureSensorI2c { i2c, address }
    }

    /// Reads the moisture level: one combined transaction that sends the
    /// value command and reads two bytes, which spell the level with the
    /// most significant byte first.
    pub fn get_moisture_level(&mut self) -> (outcome: Result<u16, MoistureSensorI2cError>)
        ensures
            final(self).address() == old(self).address(),
            one_more(
                old(self).traffic(),
                final(self).traffic(),
                moisture_request(old(self).address()),
            ),
            moisture_outcome(final(self).traffic().last().reply, outcome),
    {
        let ghost before = self.i2c.traffic();
        let mut buffer = [0u8; 2];
        let result = read_from_register(self, COMMAND_GET_VALUE, &mut buffer);
        proof {
            lemma_push_is_one_more(before, self.i2c.traffic().last());
        }
        match result {
            Ok(_) => Ok(read_u16_be(buffer.as_slice())),
            Err(_) => Err(MoistureSensorI2cError::IOError(MOISTURE_READ_FAILED.to_owned())),
        }
    }

    /// Switches the indicator: one bus write of the single byte that stands
    /// for `led`, with no payload after it.
    pub fn set_led(&mut self, led: Led) -> (outcome: Result<(), MoistureSensorI2cError>)
        ensures
            final(self).address() == old(self).address(),
            final(self).traffic() == old(self).traffic().push(
                write_exchange(old(self).address(), seq![led.code()], outcome is Ok),
            ),
            outcome matches Err(e) ==> e.message() == LED_WRITE_FAILED@,
    {
        let nothing: [u8; 0] = [];
        assert(register_frame(led.code(), nothing@) =~= seq![led.code()]);
        match write_to_register(self, u8::from(led), nothing.as_slice()) {
            Ok(_) => Ok(()),
            Err(_) => Err(MoistureSensorI2cError::IOError(LED_WRITE_FAILED.to_owned())),
        }
    }

    /// Reads the error flag: one combined transaction that sends the status
    /// register and reads one byte, whose lowest bit is the flag.
    pub fn get_error_status(&mut self) -> (outcome: Result<ErrorStatus, MoistureSensorI2cError>)
        ensures
            final(self).address() == old(self).address(),
            one_more(
                old(self).traffic(),
                final(self).traffic(),
                status_request(old(self).address()),
            ),
            status_outcome(final(self).traffic().last().reply, outcome),
    {
        let ghost before = self.i2c.traffic();
        let mut buffer = [0u8; 1];
        let result = read_from_register(self, SENSOR_STATUS, &mut buffer);
        proof {
            lemma_push_is_one_more(before, self.i2c.traffic().last());
        }
        match result {
            Ok(_) => Ok(ErrorStatus::from_status_byte(buffer[0])),
            Err(_) => Err(MoistureSensorI2cError::IOError(STATUS_READ_FAILED.to_owned())),
        }
    }

    /// Tells the device to answer to `address` from now on: one bus write of
    /// the address command followed by `address`. The value itself keeps
    /// targeting the address it was made with.
    pub fn set_address(&mut self, address: u8) -> (outcome: Result<(), MoistureSensorI2cError>)
        ensures
            final(self).address() == old(self).address(),
            final(self).traffic() == old(self).traffic().push(
                write_exchange(
                    old(self).address(),
                    seq![COMMAND_CHANGE_ADDRESS, address],
                    outcome is Ok,
                ),
            ),
            outcome matches Err(e) ==> e.message() == ADDRESS_WRITE_FAILED@,
    {
        let payload: [u8; 1] = [address];
        assert(register_frame(COMMAND_CHANGE_ADDRESS, payload@) =~= seq![
            COMMAND_CHANGE_ADDRESS,
            address,
        ]);
        match write_to_register(self, COMMAND_CHANGE_ADDRESS, payload.as_slice()) {
            Ok(_) => Ok(()),
            Err(_) => Err(MoistureSensorI2cError::IOError(ADDRESS_WRITE_FAILED.to_owned())),
        }
    }

    /// Gives the bus handle back.
    pub fn release(self) -> (i2c: I2C)
        ensures
            i2c == self.bus(),
    {
        self.i2c
    }
}

/// Two moisture readings in a row are two transactions of their own. The
/// second reading asks the bus again with the same request, and each result
/// is read off the reply to its own transaction: nothing is kept from one
/// call to the next.
pub proof fn lemma_readings_are_independent(
    start: Seq<Exchange>,
    between: Seq<Exchange>,
    end: Seq<Exchange>,
    address: u8,
    first: Result<u16, MoistureSensorI2cError>,
    second: Result<u16, MoistureSensorI2cError>,
)
    requires
        one_more(start, between, moisture_request(address)),
        moisture_outcome(between.last().reply, first),
        one_more(between, end, moisture_request(address)),
        moisture_outcome(end.last().reply, second),
    ensures
        end.len() == start.len() + 2,
        end.take(start.len() as int) == start,
        end[start.len() as int].request == moisture_request(address),
        end[start.len() as int + 1].request == moisture_request(address),
        moisture_outcome(end[start.len() as int].reply, first),
        moisture_outcome(end[start.len() as int + 1].reply, second),
{
    assert(end.drop_last().drop_last() =~= end.take(start.len() as int));
    assert(end.drop_last().last() == end[start.len() as int]);
}

} // verus!
