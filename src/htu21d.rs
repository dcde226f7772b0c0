use vstd::prelude::*;
use embedded_hal::blocking::i2c;
use crate::checksum::{crc8, crc8_of};
use crate::error::Error;
use crate::poll::{PollResult, PollSelectable, Pollable};
use crate::units::{fahrenheit_of, to_fahrenhiet, Humidity, Temperature, TemperatureUnits};

verus! {

pub const DEVICE_ADDRESS: u8 = 0x40;

pub const SOFT_RESET_COMMAND: u8 = 0xFE;

pub const READ_TEMPERATURE_COMMAND: u8 = 0xE3;

pub const READ_HUMIDITY_COMMAND: u8 = 0xE5;

/// Temperature in thousandths of a degree Celsius for a raw signal code:
/// `-46.85 + 175.72 * signal / 65536`, rounded down.
pub open spec fn temperature_of_signal(signal: int) -> int {
    -46850 + (175720 * signal) / 65536
}

/// Relative humidity in thousandths of a percent for a raw signal code:
/// `-6 + 125 * signal / 65536`, rounded down.
pub open spec fn humidity_of_signal(signal: int) -> int {
    -6000 + (125000 * signal) / 65536
}

/// The temperature a signal code stands for, in `unit`.
pub open spec fn temperature_in(unit: TemperatureUnits, signal: int) -> int {
    match unit {
        TemperatureUnits::Celsuis => temperature_of_signal(signal),
        TemperatureUnits::Fahrenheit => fahrenheit_of(temperature_of_signal(signal)),
    }
}

/// The big-endian signal code of a raw frame.
pub open spec fn signal_of(frame: Seq<u8>) -> int {
    frame[0] as int * 256 + frame[1] as int
}

/// Whether the frame's checksum byte matches its two signal bytes.
pub open spec fn frame_valid(frame: Seq<u8>) -> bool {
    crc8(frame.subrange(0, 2)) == frame[2]
}

/// The error reported for a frame whose checksum does not match.
pub open spec fn is_checksum_error_for(e: Error, frame: Seq<u8>) -> bool {
    match e {
        Error::ChecksumError { expected, actual, data } => {
            &&& expected == crc8(frame.subrange(0, 2)) as u32
            &&& actual == frame[2] as u32
            &&& data@ == frame.subrange(0, 2)
        },
        _ => false,
    }
}

/// The result of decoding `frame` as a temperature in `unit`.
pub open spec fn decodes_temperature(
    r: Result<Temperature, Error>,
    unit: TemperatureUnits,
    frame: Seq<u8>,
) -> bool {
    match r {
        Ok(t) => frame_valid(frame) && t.unit() == unit && t.milli() == temperature_in(
            unit,
            signal_of(frame),
        ),
        Err(e) => !frame_valid(frame) && is_checksum_error_for(e, frame),
    }
}

/// The result of decoding `frame` as a relative humidity.
pub open spec fn decodes_humidity(r: Result<Humidity, Error>, frame: Seq<u8>) -> bool {
    match r {
        Ok(Humidity::Relative(h)) => frame_valid(frame) && h as int == humidity_of_signal(
            signal_of(frame),
        ),
        Err(e) => !frame_valid(frame) && is_checksum_error_for(e, frame),
    }
}

/// One step the driver took at its boundary, as its ghost record keeps it.
pub enum Transaction {
    /// A one-byte command written to the device at `address`; `ok` when the
    /// bus reported success.
    Write { address: u8, command: u8, ok: bool },
    /// A read of a raw frame from the device at `address`; `frame` is the
    /// buffer after the read, `ok` when the bus reported success.
    Read { address: u8, frame: Seq<u8>, ok: bool },
    /// The clock, read for a timestamp.
    Clock { millis: i64 },
}

/// A write of `command` to the sensor.
pub open spec fn write_of(command: u8, ok: bool) -> Transaction {
    Transaction::Write { address: DEVICE_ADDRESS, command, ok }
}

/// Whether the record `new` continues the record `old`.
pub open spec fn extends(old: Seq<Transaction>, new: Seq<Transaction>) -> bool {
    old.len() <= new.len() && new.subrange(0, old.len() as int) == old
}

/// What `new` holds beyond `old`.
pub open spec fn added(old: Seq<Transaction>, new: Seq<Transaction>) -> Seq<Transaction> {
    new.subrange(old.len() as int, new.len() as int)
}

/// Whether `ops` is one command exchange: `command` written to the sensor
/// and, only when that write succeeded, one read of a three-byte frame.
pub open spec fn is_exchange(ops: Seq<Transaction>, command: u8) -> bool {
    ||| ops == seq![write_of(command, false)]
    ||| {
        &&& ops.len() == 2
        &&& ops[0] == write_of(command, true)
        &&& match ops[1] {
            Transaction::Read { address, frame, ok: _ } => address == DEVICE_ADDRESS && frame.len()
                == 3,
            _ => false,
        }
    }
}

/// How many transactions the exchange at the start of `ops` takes.
pub open spec fn exchange_len(ops: Seq<Transaction>) -> int {
    if ops.len() == 0 {
        0
    } else {
        match ops[0] {
            Transaction::Write { address: _, command: _, ok } => if ok {
                2
            } else {
                1
            },
            _ => 1,
        }
    }
}

/// The frame an exchange delivered: `None` when its write or its read failed.
pub open spec fn exchange_frame(ops: Seq<Transaction>) -> Option<Seq<u8>> {
    if ops.len() == 2 {
        match ops[1] {
            Transaction::Read { address: _, frame, ok } => if ok {
                Some(frame)
            } else {
                None
            },
            _ => None,
        }
    } else {
        None
    }
}

/// Whether an exchange delivered a frame whose checksum matches.
pub open spec fn exchange_succeeds(ops: Seq<Transaction>) -> bool {
    match exchange_frame(ops) {
        Some(f) => frame_valid(f),
        None => false,
    }
}

/// The result owed for a temperature exchange: `Transport` when the bus
/// failed, else what the frame decodes to.
pub open spec fn temperature_outcome(
    r: Result<Temperature, Error>,
    unit: TemperatureUnits,
    ops: Seq<Transaction>,
) -> bool {
    match exchange_frame(ops) {
        Some(f) => decodes_temperature(r, unit, f),
        None => r matches Err(Error::Transport),
    }
}

/// The result owed for a humidity exchange: `Transport` when the bus
/// failed, else what the frame decodes to.
pub open spec fn humidity_outcome(r: Result<Humidity, Error>, ops: Seq<Transaction>) -> bool {
    match exchange_frame(ops) {
        Some(f) => decodes_humidity(r, f),
        None => r matches Err(Error::Transport),
    }
}

/// The reading owed for a clock read followed by a temperature exchange and,
/// only when that one succeeded, a humidity exchange: the first error, or
/// both quantities stamped with the clock's value.
pub open spec fn sensors_outcome(
    r: Result<HTU21DFSensorData, Error>,
    unit: TemperatureUnits,
    ops: Seq<Transaction>,
) -> bool {
    &&& ops.len() >= 1
    &&& match ops[0] {
        Transaction::Clock { millis } => {
            let rest = ops.drop_first();
            let t = rest.take(exchange_len(rest));
            let h = rest.skip(exchange_len(rest));
            &&& is_exchange(t, READ_TEMPERATURE_COMMAND)
            &&& if !exchange_succeeds(t) {
                &&& h.len() == 0
                &&& match r {
                    Ok(_) => false,
                    Err(e) => temperature_outcome(Err(e), unit, t),
                }
            } else {
                &&& is_exchange(h, READ_HUMIDITY_COMMAND)
                &&& match r {
                    Ok(d) => {
                        &&& temperature_outcome(Ok(d.temperature), unit, t)
                        &&& humidity_outcome(Ok(d.humidity), h)
                        &&& d.timestamp == millis
                    },
                    Err(e) => humidity_outcome(Err(e), h),
                }
            }
        },
        _ => false,
    }
}

/// An exchange at the start of `t + h` is `t` itself.
proof fn lemma_split_exchange(t: Seq<Transaction>, h: Seq<Transaction>, command: u8)
    requires
        is_exchange(t, command),
    ensures
        exchange_len(t + h) == t.len(),
        (t + h).take(t.len() as int) == t,
        (t + h).skip(t.len() as int) == h,
{
    assert((t + h)[0] == t[0]);
    assert((t + h).take(t.len() as int) =~= t);
    assert((t + h).skip(t.len() as int) =~= h);
}

/// Relies on embedded-hal's `i2c::Write::write`: sends `command` to the device
/// at `address` over the driver's bus; `Err` when the bus reports a failure.
/// The driver's record gains that write and its outcome.
#[verifier::external_body]
fn bus_write<I2C>(dev: &mut HTU21DF<I2C>, address: u8, command: u8) -> (r: Result<(), ()>)
    where
        I2C: i2c::Write,
    ensures
        final(dev).unit() == old(dev).unit(),
        final(dev).log() == old(dev).log().push(
            Transaction::Write { address, command, ok: r is Ok },
        ),
{
    dev.i2c_comm.write(address, &[command]).map_err(|_| ())
}

/// Relies on embedded-hal's `i2c::Read::read`: fills `buffer` from the device
/// at `address` over the driver's bus; `Err` when the bus reports a failure.
/// The driver's record gains that read, the buffer after it and its outcome.
#[verifier::external_body]
fn bus_read<I2C>(dev: &mut HTU21DF<I2C>, address: u8, buffer: &mut [u8; 3]) -> (r: Result<(), ()>)
    where
        I2C: i2c::Read,
    ensures
        final(dev).unit() == old(dev).unit(),
        final(dev).log() == old(dev).log().push(
            Transaction::Read { address, frame: final(buffer)@, ok: r is Ok },
        ),
{
    dev.i2c_comm.read(address, buffer).map_err(|_| ())
}

/// Relies on chrono's `Utc::now`: the current time in milliseconds since the
/// Unix epoch. Nothing is promised of the value; the driver's record gains
/// the clock reading.
#[verifier::external_body]
fn now_millis<I2C>(dev: &mut HTU21DF<I2C>) -> (r: i64)
    ensures
        final(dev).unit() == old(dev).unit(),
        final(dev).log() == old(dev).log().push(Transaction::Clock { millis: r }),
{
    chrono::Utc::now().timestamp_millis()
}

/// Driver for an HTU21D(F) humidity and temperature sensor on an I2C bus.
/// It owns the bus and reports temperatures in a unit fixed at construction.
pub struct HTU21DF<I2C> {
    i2c_comm: I2C,
    temperature_unit: TemperatureUnits,
    /// Every bus transaction and clock reading made so far; only the bus and
    /// clock wrappers extend it.
    sent: Ghost<Seq<Transaction>>,
}

/// One reading of both quantities, stamped with the time (milliseconds since
/// the Unix epoch) at which the first transfer began.
pub struct HTU21DFSensorData {
    pub temperature: Temperature,
    pub humidity: Humidity,
    pub timestamp: i64,
}

/// Every signal code decodes to a Celsius temperature that converts to
/// Fahrenheit without leaving `i64`.
proof fn lemma_temperature_fits(signal: int)
    requires
        0 <= signal <= 65535,
    ensures
        crate::units::fahrenheit_fits(temperature_of_signal(signal)),
{
    let scaled = (175720 * signal) / 65536;
    assert(0 <= scaled <= 175720) by (nonlinear_arith)
        requires
            scaled == (175720 * signal) / 65536,
            0 <= signal <= 65535,
    ;
    let t = temperature_of_signal(signal);
    assert(-100000 <= (9 * t) / 5 <= 300000) by (nonlinear_arith)
        requires
            -46850 <= t <= 128870,
    ;
}

impl<I2C> HTU21DF<I2C> {
    /// The unit temperatures are reported in.
    pub closed spec fn unit(&self) -> TemperatureUnits {
        self.temperature_unit
    }

    /// Every transaction the driver has made, oldest first.
    pub closed spec fn log(&self) -> Seq<Transaction> {
        self.sent@
    }
}

impl<I2C> HTU21DF<I2C> where I2C: i2c::Write + i2c::Read {
    /// Resets the device, then returns a driver that owns `i2c_comm`.
    /// Fails with `Transport` when the reset command cannot be written.
    pub fn new(i2c_comm: I2C, temperature_unit: TemperatureUnits) -> (r: Result<Self, Error>)
        ensures
            r matches Ok(d) ==> d.unit() == temperature_unit && d.log() == seq![
                write_of(SOFT_RESET_COMMAND, true),
            ],
            r matches Err(e) ==> e is Transport,
    {
        let mut dev = HTU21DF { i2c_comm, temperature_unit, sent: Ghost(Seq::empty()) };
        let reset = bus_write(&mut dev, DEVICE_ADDRESS, SOFT_RESET_COMMAND);
        proof {
            assert(dev.log() =~= seq![write_of(SOFT_RESET_COMMAND, reset is Ok)]);
        }
        Self::after_reset(dev, reset)
    }

    /// The driver once its reset write has reported `reset`: ready when the
    /// write succeeded, else `Transport`.
    fn after_reset(dev: Self, reset: Result<(), ()>) -> (r: Result<Self, Error>)
        ensures
            r is Ok <==> reset is Ok,
            r matches Ok(d) ==> d.unit() == dev.unit() && d.log() == dev.log(),
            r matches Err(e) ==> e is Transport,
    {
        match reset {
            Ok(()) => Ok(dev),
            Err(()) => Err(Error::Transport),
        }
    }

    /// The device's CRC-8 over `data` (polynomial 0x131, initial value zero).
    pub fn checksum_calc(data: &[u8]) -> (r: u8)
        ensures
            r == crc8(data@),
    {
        crc8_of(data)
    }

    /// Temperature in thousandths of a degree Celsius for a raw signal code.
    pub fn temperature_formula(signal_value: u16) -> (r: i64)
        ensures
            r as int == temperature_of_signal(signal_value as int),
    {
        let product: u64 = 175720u64 * (signal_value as u64);
        let scaled: u64 = product / 65536;
        assert(scaled <= 175720) by (nonlinear_arith)
            requires
                scaled == product as int / 65536,
                product <= 175720 * 65535,
        ;
        (scaled as i64) - 46850
    }

    /// Relative humidity in thousandths of a percent for a raw signal code.
    pub fn relative_humidity_formula(signal_value: u16) -> (r: i64)
        ensures
            r as int == humidity_of_signal(signal_value as int),
    {
        let product: u64 = 125000u64 * (signal_value as u64);
        let scaled: u64 = product / 65536;
        assert(scaled <= 125000) by (nonlinear_arith)
            requires
                scaled == product as int / 65536,
                product <= 125000 * 65535,
        ;
        (scaled as i64) - 6000
    }

    /// Accepts the first two bytes of `data` when their checksum is `expected`;
    /// otherwise reports the computed checksum, the received one and the bytes.
    pub fn validate(data: &[u8], expected: u8) -> (r: Result<(), Error>)
        requires
            data@.len() >= 2,
        ensures
            r is Ok <==> crc8(data@.subrange(0, 2)) == expected,
            r matches Err(e) ==> is_checksum_error_for(e, data@.subrange(0, 2).push(expected)),
    {
        let pair: Vec<u8> = vec![data[0], data[1]];
        let checksum: u8 = crc8_of(pair.as_slice());
        proof {
            assert(pair@ =~= data@.subrange(0, 2));
            let f = data@.subrange(0, 2).push(expected);
            assert(f.subrange(0, 2) =~= data@.subrange(0, 2));
        }
        if checksum == expected {
            Ok(())
        } else {
            Err(Error::ChecksumError { expected: checksum as u32, actual: expected as u32, data: pair })
        }
    }

    /// Splits a raw frame into its big-endian signal code and checksum byte.
    pub fn parse_data_buffer(&self, signal_data: &[u8]) -> (r: (u16, u8))
        requires
            signal_data@.len() >= 3,
        ensures
            r.0 as int == signal_of(signal_data@),
            r.1 == signal_data@[2],
    {
        let signal_value: u16 = (signal_data[0] as u16) * 256 + (signal_data[1] as u16);
        (signal_value, signal_data[2])
    }

    /// Decodes a raw temperature frame: validates its checksum, then converts
    /// the signal code to the driver's unit.
    pub fn calculate_temperature(&self, data: &[u8]) -> (r: Result<Temperature, Error>)
        requires
            data@.len() == 3,
        ensures
            decodes_temperature(r, self.unit(), data@),
    {
        let (signal_value, checksum_value) = self.parse_data_buffer(data);
        proof {
            assert(data@.subrange(0, 2).push(checksum_value) =~= data@);
        }
        match Self::validate(data, checksum_value) {
            Ok(()) => {},
            Err(e) => {
                return Err(e);
            },
        }
        let temperature: i64 = Self::temperature_formula(signal_value);
        let converted_value: i64 = match self.temperature_unit {
            TemperatureUnits::Celsuis => temperature,
            TemperatureUnits::Fahrenheit => {
                proof {
                    lemma_temperature_fits(signal_value as int);
                }
                to_fahrenhiet(temperature)
            },
        };
        Ok(Temperature::new(converted_value, self.temperature_unit))
    }

    /// Decodes a raw humidity frame: validates its checksum, then converts the
    /// signal code to relative humidity.
    pub fn calculate_humidity(&self, data: &[u8]) -> (r: Result<Humidity, Error>)
        requires
            data@.len() == 3,
        ensures
            decodes_humidity(r, data@),
    {
        let (signal_value, checksum_value) = self.parse_data_buffer(data);
        proof {
            assert(data@.subrange(0, 2).push(checksum_value) =~= data@);
        }
        match Self::validate(data, checksum_value) {
            Ok(()) => {},
            Err(e) => {
                return Err(e);
            },
        }
        let converted_value: i64 = Self::relative_humidity_formula(signal_value);
        Ok(Humidity::Relative(converted_value))
    }

    /// Reads one raw frame from the device into `data_buffer`; `Transport`
    /// when the bus reports a failure.
    fn read(&mut self, data_buffer: &mut [u8; 3]) -> (r: Result<(), Error>)
        ensures
            final(self).unit() == old(self).unit(),
            final(self).log() == old(self).log().push(
                Transaction::Read { address: DEVICE_ADDRESS, frame: final(data_buffer)@, ok: r is Ok },
            ),
            r matches Err(e) ==> e is Transport,
    {
        match bus_read(self, DEVICE_ADDRESS, data_buffer) {
            Ok(()) => Ok(()),
            Err(()) => Err(Error::Transport),
        }
    }

    /// Writes `command`, then, when the write succeeded, reads the frame the
    /// device answers with.
    fn transfer(&mut self, command: u8) -> (r: Result<[u8; 3], Error>)
        ensures
            final(self).unit() == old(self).unit(),
            extends(old(self).log(), final(self).log()),
            is_exchange(added(old(self).log(), final(self).log()), command),
            match exchange_frame(added(old(self).log(), final(self).log())) {
                Some(f) => r matches Ok(data) && data@ == f,
                None => r matches Err(Error::Transport),
            },
    {
        let ghost start = self.sent@;
        let written = bus_write(self, DEVICE_ADDRESS, command);
        match written {
            Ok(()) => {},
            Err(()) => {
                assert(added(start, self.sent@) =~= seq![write_of(command, false)]);
                assert(self.sent@.subrange(0, start.len() as int) =~= start);
                return Err(Error::Transport);
            },
        }
        let mut data: [u8; 3] = [0u8; 3];
        let outcome = self.read(&mut data);
        proof {
            let ops = added(start, self.sent@);
            assert(ops =~= seq![
                write_of(command, true),
                Transaction::Read { address: DEVICE_ADDRESS, frame: data@, ok: outcome is Ok },
            ]);
            assert(self.sent@.subrange(0, start.len() as int) =~= start);
        }
        match outcome {
            Ok(()) => Ok(data),
            Err(e) => Err(e),
        }
    }

    /// Writes the temperature command, reads one frame and decodes it. Fails
    /// with `Transport` when the write or the read fails (and reads nothing
    /// after a failed write), and with `ChecksumError` when the frame does not
    /// validate.
    pub fn read_temperature(&mut self) -> (r: Result<Temperature, Error>)
        ensures
            final(self).unit() == old(self).unit(),
            extends(old(self).log(), final(self).log()),
            is_exchange(added(old(self).log(), final(self).log()), READ_TEMPERATURE_COMMAND),
            temperature_outcome(r, old(self).unit(), added(old(self).log(), final(self).log())),
    {
        match self.transfer(READ_TEMPERATURE_COMMAND) {
            Ok(data) => self.calculate_temperature(&data),
            Err(e) => Err(e),
        }
    }

    /// Writes the humidity command, reads one frame and decodes it. Fails
    /// with `Transport` when the write or the read fails (and reads nothing
    /// after a failed write), and with `ChecksumError` when the frame does not
    /// validate.
    pub fn read_humidity(&mut self) -> (r: Result<Humidity, Error>)
        ensures
            final(self).unit() == old(self).unit(),
            extends(old(self).log(), final(self).log()),
            is_exchange(added(old(self).log(), final(self).log()), READ_HUMIDITY_COMMAND),
            humidity_outcome(r, added(old(self).log(), final(self).log())),
    {
        match self.transfer(READ_HUMIDITY_COMMAND) {
            Ok(data) => self.calculate_humidity(&data),
            Err(e) => Err(e),
        }
    }

    /// Reads the clock, then the temperature, then, only when that succeeded,
    /// the humidity. Either both reads succeed and the stamped reading is
    /// returned, or the first error is, and no reading.
    pub fn read_sensors(&mut self) -> (r: Result<HTU21DFSensorData, Error>)
        ensures
            final(self).unit() == old(self).unit(),
            extends(old(self).log(), final(self).log()),
            sensors_outcome(r, old(self).unit(), added(old(self).log(), final(self).log())),
    {
        let ghost start = self.sent@;
        let timestamp: i64 = now_millis(self);
        let ghost after_clock = self.sent@;
        let temperature = self.read_temperature();
        let ghost after_temperature = self.sent@;
        let ghost t = added(after_clock, after_temperature);
        proof {
            assert(after_temperature =~= after_clock + t);
        }
        match temperature {
            Ok(_) => {},
            Err(e) => {
                proof {
                    let ops = added(start, self.sent@);
                    lemma_split_exchange(t, Seq::empty(), READ_TEMPERATURE_COMMAND);
                    assert(ops.drop_first() =~= t + Seq::<Transaction>::empty());
                    assert(self.sent@.subrange(0, start.len() as int) =~= start);
                }
                return Err(e);
            },
        }
        let humidity = self.read_humidity();
        proof {
            let h = added(after_temperature, self.sent@);
            assert(self.sent@ =~= after_temperature + h);
            let ops = added(start, self.sent@);
            lemma_split_exchange(t, h, READ_TEMPERATURE_COMMAND);
            assert(ops.drop_first() =~= t + h);
            assert(self.sent@.subrange(0, start.len() as int) =~= start);
        }
        combine_reading(temperature, humidity, timestamp)
    }
}

/// Joins a temperature result and a humidity result into one reading: the
/// temperature's error if it failed, else the humidity's, else both values
/// stamped with `timestamp`.
pub fn combine_reading(
    temperature: Result<Temperature, Error>,
    humidity: Result<Humidity, Error>,
    timestamp: i64,
) -> (r: Result<HTU21DFSensorData, Error>)
    ensures
        r == match (temperature, humidity) {
            (Ok(t), Ok(h)) => Ok(HTU21DFSensorData { temperature: t, humidity: h, timestamp }),
            (Err(e), _) => Err(e),
            (Ok(_), Err(e)) => Err(e),
        },
{
    match temperature {
        Ok(t) => match humidity {
            Ok(h) => Ok(HTU21DFSensorData { temperature: t, humidity: h, timestamp }),
            Err(e) => Err(e),
        },
        Err(e) => Err(e),
    }
}

/// Which quantities of the HTU21D(F) a poll reads.
#[derive(Clone, Copy, Debug, PartialEq, Eq, Structural)]
pub enum HTU21DFSelection {
    Temperature,
    Humidity,
    Both,
}

/// Whether a selection asks for the temperature.
pub open spec fn wants_temperature(s: HTU21DFSelection) -> bool {
    !(s is Humidity)
}

/// Whether a selection asks for the humidity.
pub open spec fn wants_humidity(s: HTU21DFSelection) -> bool {
    !(s is Temperature)
}

impl PollSelectable for HTU21DFSelection {
    /// (temperature wanted, humidity wanted)
    type Output = (bool, bool);

    fn value(self) -> (bool, bool) {
        match self {
            HTU21DFSelection::Temperature => (true, false),
            HTU21DFSelection::Humidity => (false, true),
            HTU21DFSelection::Both => (true, true),
        }
    }
}

/// The quantities one poll read; a quantity that was not selected is `None`.
pub struct HTU21DFValues {
    pub temperature: Option<Temperature>,
    pub humidity: Option<Humidity>,
}

/// The outcome of a successful poll of an HTU21D(F).
pub struct HTU21DFPollResult {
    pub values: HTU21DFValues,
}

impl PollResult for HTU21DFPollResult {
    type Output = HTU21DFValues;

    fn value(self) -> HTU21DFValues {
        self.values
    }

    fn value_as_ref(&self) -> &HTU21DFValues {
        &self.values
    }
}

/// The value of a sub-read that succeeded; `None` when it was not made or
/// failed.
pub open spec fn ok_value<T>(o: Option<Result<T, Error>>) -> Option<T> {
    match o {
        Some(Ok(v)) => Some(v),
        _ => None,
    }
}

/// Joins the sub-reads of one poll; `None` for one that was not made. The
/// temperature's error comes first, then the humidity's; with neither, the
/// values read.
pub fn combine_values(
    temperature: Option<Result<Temperature, Error>>,
    humidity: Option<Result<Humidity, Error>>,
) -> (r: Result<HTU21DFPollResult, Error>)
    ensures
        r == match (temperature, humidity) {
            (Some(Err(e)), _) => Err(e),
            (_, Some(Err(e))) => Err(e),
            _ => Ok(
                HTU21DFPollResult {
                    values: HTU21DFValues {
                        temperature: ok_value(temperature),
                        humidity: ok_value(humidity),
                    },
                },
            ),
        },
{
    let t: Option<Temperature> = match temperature {
        Some(Err(e)) => {
            return Err(e);
        },
        Some(Ok(v)) => Some(v),
        None => None,
    };
    let h: Option<Humidity> = match humidity {
        Some(Err(e)) => {
            return Err(e);
        },
        Some(Ok(v)) => Some(v),
        None => None,
    };
    Ok(HTU21DFPollResult { values: HTU21DFValues { temperature: t, humidity: h } })
}

/// The poll result owed for the transactions `ops` of a poll of `selection`:
/// the temperature exchange when selected, then, when selected and no
/// earlier exchange failed, the humidity exchange; the first error, or the
/// selected values.
pub open spec fn poll_outcome(
    r: Result<HTU21DFPollResult, Error>,
    unit: TemperatureUnits,
    selection: HTU21DFSelection,
    ops: Seq<Transaction>,
) -> bool {
    match selection {
        HTU21DFSelection::Temperature => {
            &&& is_exchange(ops, READ_TEMPERATURE_COMMAND)
            &&& match r {
                Ok(p) => p.values.humidity is None && match p.values.temperature {
                    Some(t) => temperature_outcome(Ok(t), unit, ops),
                    None => false,
                },
                Err(e) => temperature_outcome(Err(e), unit, ops),
            }
        },
        HTU21DFSelection::Humidity => {
            &&& is_exchange(ops, READ_HUMIDITY_COMMAND)
            &&& match r {
                Ok(p) => p.values.temperature is None && match p.values.humidity {
                    Some(h) => humidity_outcome(Ok(h), ops),
                    None => false,
                },
                Err(e) => humidity_outcome(Err(e), ops),
            }
        },
        HTU21DFSelection::Both => {
            let t = ops.take(exchange_len(ops));
            let h = ops.skip(exchange_len(ops));
            &&& is_exchange(t, READ_TEMPERATURE_COMMAND)
            &&& if !exchange_succeeds(t) {
                &&& h.len() == 0
                &&& match r {
                    Ok(_) => false,
                    Err(e) => temperature_outcome(Err(e), unit, t),
                }
            } else {
                &&& is_exchange(h, READ_HUMIDITY_COMMAND)
                &&& match r {
                    Ok(p) => {
                        &&& match p.values.temperature {
                            Some(tv) => temperature_outcome(Ok(tv), unit, t),
                            None => false,
                        }
                        &&& match p.values.humidity {
                            Some(hv) => humidity_outcome(Ok(hv), h),
                            None => false,
                        }
                    },
                    Err(e) => humidity_outcome(Err(e), h),
                }
            }
        },
    }
}

impl<I2C> HTU21DF<I2C> where I2C: i2c::Write + i2c::Read {
    /// Reads exactly the selected quantities, temperature first, and no
    /// humidity after a failed temperature read. On failure the first error
    /// is returned and nothing that was read is kept.
    pub fn poll_selection(&mut self, selection: HTU21DFSelection) -> (r: Result<
        HTU21DFPollResult,
        Error,
    >)
        ensures
            final(self).unit() == old(self).unit(),
            extends(old(self).log(), final(self).log()),
            poll_outcome(r, old(self).unit(), selection, added(old(self).log(), final(self).log())),
    {
        let ghost start = self.sent@;
        match selection {
            HTU21DFSelection::Temperature => {
                let t = self.read_temperature();
                combine_values(Some(t), None)
            },
            HTU21DFSelection::Humidity => {
                let h = self.read_humidity();
                combine_values(None, Some(h))
            },
            HTU21DFSelection::Both => {
                let t = self.read_temperature();
                let ghost after_temperature = self.sent@;
                let ghost tops = added(start, after_temperature);
                proof {
                    assert(after_temperature =~= start + tops);
                }
                let failed: bool = match &t {
                    Ok(_) => false,
                    Err(_) => true,
                };
                if failed {
                    proof {
                        lemma_split_exchange(tops, Seq::empty(), READ_TEMPERATURE_COMMAND);
                        assert(added(start, self.sent@) =~= tops + Seq::<Transaction>::empty());
                    }
                    return combine_values(Some(t), None);
                }
                let h = self.read_humidity();
                proof {
                    let hops = added(after_temperature, self.sent@);
                    assert(self.sent@ =~= after_temperature + hops);
                    lemma_split_exchange(tops, hops, READ_TEMPERATURE_COMMAND);
                    assert(added(start, self.sent@) =~= tops + hops);
                    assert(self.sent@.subrange(0, start.len() as int) =~= start);
                }
                combine_values(Some(t), Some(h))
            },
        }
    }
}

/// rppal's I2C bus of a Raspberry Pi, carried as an opaque value.
#[verifier::external_type_specification]
#[verifier::external_body]
pub struct ExI2c(rppal::i2c::I2c);

// Verus cannot check a trait impl whose bounds name embedded-hal's traits, so
// `Pollable` is implemented for the driver on rppal's bus; on any other bus,
// `poll_selection` does the same work under the same contract.
impl Pollable for HTU21DF<rppal::i2c::I2c> {
    type Error = Error;

    type Output = HTU21DFPollResult;

    type Selection = HTU21DFSelection;

    fn poll(&mut self, selection: HTU21DFSelection) -> Result<HTU21DFPollResult, Error> {
        self.poll_selection(selection)
    }
}

} // verus!
