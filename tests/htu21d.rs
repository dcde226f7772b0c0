use embedded_hal::blocking::i2c::{Read, Write};
use sensor_lib::htu21d::HTU21DF;
use sensor_lib::{
    combine_reading, combine_values, Error, Humidity, Temperature, TemperatureUnits,
};

const READ_VEC_LEN: usize = 3;

#[derive(Default)]
struct UnitTestMockI2C {
    mock_read_value: Vec<u8>,
}

impl UnitTestMockI2C {
    pub fn set_read_value(&mut self, read_value: Vec<u8>) {
        self.mock_read_value = read_value;
    }
}

#[derive(Debug)]
struct MockError;

impl Write for UnitTestMockI2C {
    type Error = MockError;
    fn write(&mut self, _addr: u8, _output: &[u8]) -> Result<(), Self::Error> {
        Ok(())
    }
}

impl Read for UnitTestMockI2C {
    type Error = MockError;
    fn read(&mut self, _address: u8, buffer: &mut [u8]) -> Result<(), Self::Error> {
        match self.mock_read_value.len() {
            READ_VEC_LEN => {
                buffer.copy_from_slice(&self.mock_read_value);
                Ok(())
            }
            _ => Err(MockError),
        }
    }
}

const PRECISION_EPSILON: f32 = 0.1;

fn close_enough(a: f32, b: f32) -> bool {
    (a - b).abs() <= PRECISION_EPSILON
}

fn from_milli(v: i64) -> f32 {
    v as f32 / 1000.0
}

#[test]
fn crc_checksum_test_1() {
    let checksum = HTU21DF::<UnitTestMockI2C>::checksum_calc(&[0xDC]);
    assert_eq!(checksum, 0x79);
}

#[test]
fn crc_checksum_test_2() {
    let checksum = HTU21DF::<UnitTestMockI2C>::checksum_calc(&[0x68, 0x3A]);
    assert_eq!(checksum, 0x7C);
}

#[test]
fn crc_checksum_test_3() {
    let checksum = HTU21DF::<UnitTestMockI2C>::checksum_calc(&[0x4E, 0x85]);
    assert_eq!(checksum, 0x6B);
}

#[test]
fn checksum_validate_test_1() {
    let result = HTU21DF::<UnitTestMockI2C>::validate(&[0x68, 0x3A], 0x7C);
    assert!(result.is_ok());
}

#[test]
fn checksum_validate_test_2() {
    let result = HTU21DF::<UnitTestMockI2C>::validate(&[0x4E, 0x85], 0x6B);
    assert!(result.is_ok());
}

#[test]
fn checksum_validate_negative_test_1() {
    let result = HTU21DF::<UnitTestMockI2C>::validate(&[0x4E, 0x85], 0x7C);
    assert!(result.is_err());
}

#[test]
fn checksum_validate_negative_test_2() {
    let result = HTU21DF::<UnitTestMockI2C>::validate(&[0x68, 0x3A], 0x6B);
    assert!(result.is_err());
}

#[test]
fn signal_to_temperature_test_1() {
    let input = 0x683A;
    let expected = 24.7;

    let temp = from_milli(HTU21DF::<UnitTestMockI2C>::temperature_formula(input));
    assert!(
        close_enough(temp, expected),
        "Expected {} but got {}",
        expected,
        temp
    );
}

#[test]
fn signal_to_humdity_test_1() {
    let input = 0x4E85;
    let expected = 32.3;

    let relative_humidity =
        from_milli(HTU21DF::<UnitTestMockI2C>::relative_humidity_formula(input));
    assert!(
        close_enough(relative_humidity, expected),
        "Expected {} but got {}",
        expected,
        relative_humidity
    );
}

#[test]
fn signal_to_humdity_test_2() {
    let input = 0x7C80;
    let expected = 54.8;
    let relative_humidity =
        from_milli(HTU21DF::<UnitTestMockI2C>::relative_humidity_formula(input));
    assert!(
        close_enough(relative_humidity, expected),
        "Expected {} but got {}",
        expected,
        relative_humidity
    );
}

#[test]
fn read_temperature_test_1() {
    let expected = 24.7;

    let mut unit_test_mock_i2c = UnitTestMockI2C::default();
    unit_test_mock_i2c.set_read_value(vec![0x68, 0x3A, 0x7C]);

    let mut test_device = HTU21DF::new(unit_test_mock_i2c, TemperatureUnits::Celsuis).unwrap();
    let temperature_read = test_device.read_temperature();

    assert!(temperature_read.is_ok());

    let (temp, _) = temperature_read.unwrap().get_temperature();
    let temp = from_milli(temp);

    assert!(
        close_enough(temp, expected),
        "Expected {} but got {}",
        expected,
        temp
    );
}

#[test]
fn read_humidity_test_1() {
    let expected = 32.3;

    let mut unit_test_mock_i2c = UnitTestMockI2C::default();
    unit_test_mock_i2c.set_read_value(vec![0x4E, 0x85, 0x6B]);

    let mut test_device = HTU21DF::new(unit_test_mock_i2c, TemperatureUnits::Celsuis).unwrap();
    let humidity_read = test_device.read_humidity();

    assert!(humidity_read.is_ok());

    let humidity = match humidity_read.unwrap() {
        Humidity::Relative(value) => from_milli(value),
    };

    assert!(
        close_enough(humidity, expected),
        "Expected {} but got {}",
        expected,
        humidity
    );
}

#[test]
fn read_temperature_in_fahrenheit() {
    let mut mock = UnitTestMockI2C::default();
    mock.set_read_value(vec![0x68, 0x3A, 0x7C]);
    let mut device = HTU21DF::new(mock, TemperatureUnits::Fahrenheit).unwrap();
    let (value, unit) = device.read_temperature().unwrap().get_temperature();
    assert_eq!(unit, TemperatureUnits::Fahrenheit);
    assert!((from_milli(value) - 76.5).abs() <= 0.3);
    assert_eq!(value, 76443);
}

#[test]
fn read_temperature_exact_celsius() {
    let mut mock = UnitTestMockI2C::default();
    mock.set_read_value(vec![0x68, 0x3A, 0x7C]);
    let mut device = HTU21DF::new(mock, TemperatureUnits::Celsuis).unwrap();
    let (value, unit) = device.read_temperature().unwrap().get_temperature();
    assert_eq!(unit, TemperatureUnits::Celsuis);
    assert_eq!(value, 24691);
}

#[test]
fn wrong_length_frame_is_a_transport_error() {
    let mut mock = UnitTestMockI2C::default();
    mock.set_read_value(vec![0x68, 0x3A]);
    let mut device = HTU21DF::new(mock, TemperatureUnits::Celsuis).unwrap();
    assert!(matches!(device.read_temperature(), Err(Error::Transport)));
    assert!(matches!(device.read_humidity(), Err(Error::Transport)));
    assert!(matches!(device.read_sensors(), Err(Error::Transport)));
}

#[test]
fn bad_checksum_reports_both_codes_and_the_bytes() {
    let mut mock = UnitTestMockI2C::default();
    mock.set_read_value(vec![0x4E, 0x85, 0x7C]);
    let mut device = HTU21DF::new(mock, TemperatureUnits::Celsuis).unwrap();
    match device.read_humidity() {
        Err(Error::ChecksumError { expected, actual, data }) => {
            assert_eq!(expected, 0x6B);
            assert_eq!(actual, 0x7C);
            assert_eq!(data, vec![0x4E, 0x85]);
        }
        _ => panic!("expected a checksum error"),
    }
}

#[test]
fn validate_mismatch_carries_computed_and_received() {
    match HTU21DF::<UnitTestMockI2C>::validate(&[0x68, 0x3A], 0x6B) {
        Err(Error::ChecksumError { expected, actual, data }) => {
            assert_eq!(expected, 0x7C);
            assert_eq!(actual, 0x6B);
            assert_eq!(data, vec![0x68, 0x3A]);
        }
        _ => panic!("expected a checksum error"),
    }
}

#[test]
fn checksum_of_nothing_is_zero() {
    assert_eq!(HTU21DF::<UnitTestMockI2C>::checksum_calc(&[]), 0x00);
}

#[test]
fn checksum_is_deterministic() {
    let data = [0x7C, 0x80];
    let first = HTU21DF::<UnitTestMockI2C>::checksum_calc(&data);
    let second = HTU21DF::<UnitTestMockI2C>::checksum_calc(&data);
    assert_eq!(first, second);
}

#[test]
fn formulas_at_the_ends_of_the_signal_range() {
    assert_eq!(HTU21DF::<UnitTestMockI2C>::temperature_formula(0), -46850);
    assert_eq!(HTU21DF::<UnitTestMockI2C>::temperature_formula(0xFFFF), 128867);
    assert_eq!(HTU21DF::<UnitTestMockI2C>::relative_humidity_formula(0), -6000);
    assert_eq!(HTU21DF::<UnitTestMockI2C>::relative_humidity_formula(0xFFFF), 118998);
    assert_eq!(HTU21DF::<UnitTestMockI2C>::relative_humidity_formula(0x4E85), 32339);
    assert_eq!(HTU21DF::<UnitTestMockI2C>::relative_humidity_formula(0x7C80), 54791);
}

#[test]
fn parse_data_buffer_is_big_endian() {
    let mut mock = UnitTestMockI2C::default();
    mock.set_read_value(vec![0x68, 0x3A, 0x7C]);
    let device = HTU21DF::new(mock, TemperatureUnits::Celsuis).unwrap();
    assert_eq!(device.parse_data_buffer(&[0x68, 0x3A, 0x7C]), (0x683A, 0x7C));
}

type CallRecord = std::rc::Rc<std::cell::RefCell<Vec<(char, u8, Vec<u8>)>>>;

/// Records every bus call in a shared record; reads answer with the next
/// scripted frame, and a frame of the wrong length is answered with an error.
struct RecordingMockI2C {
    frames: Vec<Vec<u8>>,
    calls: CallRecord,
}

fn recording(frames: Vec<Vec<u8>>) -> (RecordingMockI2C, CallRecord) {
    let calls = CallRecord::default();
    (RecordingMockI2C { frames, calls: calls.clone() }, calls)
}

impl Write for RecordingMockI2C {
    type Error = MockError;
    fn write(&mut self, addr: u8, output: &[u8]) -> Result<(), Self::Error> {
        self.calls.borrow_mut().push(('w', addr, output.to_vec()));
        Ok(())
    }
}

impl Read for RecordingMockI2C {
    type Error = MockError;
    fn read(&mut self, address: u8, buffer: &mut [u8]) -> Result<(), Self::Error> {
        self.calls.borrow_mut().push(('r', address, vec![buffer.len() as u8]));
        let frame = if self.frames.is_empty() { Vec::new() } else { self.frames.remove(0) };
        if frame.len() == buffer.len() {
            buffer.copy_from_slice(&frame);
            Ok(())
        } else {
            Err(MockError)
        }
    }
}

#[test]
fn read_sensors_fails_when_humidity_read_fails_after_temperature() {
    let (mock, calls) = recording(vec![vec![0x68, 0x3A, 0x7C], vec![0x4E]]);
    let mut device = HTU21DF::new(mock, TemperatureUnits::Celsuis).unwrap();
    assert!(matches!(device.read_sensors(), Err(Error::Transport)));
    assert_eq!(
        *calls.borrow(),
        vec![
            ('w', 0x40, vec![0xFE]),
            ('w', 0x40, vec![0xE3]),
            ('r', 0x40, vec![3]),
            ('w', 0x40, vec![0xE5]),
            ('r', 0x40, vec![3]),
        ]
    );
}

#[test]
fn read_sensors_fails_when_humidity_checksum_fails_after_temperature() {
    let (mock, _) = recording(vec![vec![0x68, 0x3A, 0x7C], vec![0x4E, 0x85, 0x00]]);
    let mut device = HTU21DF::new(mock, TemperatureUnits::Celsuis).unwrap();
    assert!(matches!(
        device.read_sensors(),
        Err(Error::ChecksumError { expected: 0x6B, actual: 0x00, .. })
    ));
}

#[test]
fn read_sensors_stops_after_a_failed_temperature_read() {
    let (mock, calls) = recording(vec![vec![0x68, 0x3A, 0x00], vec![0x4E, 0x85, 0x6B]]);
    let mut device = HTU21DF::new(mock, TemperatureUnits::Celsuis).unwrap();
    assert!(matches!(device.read_sensors(), Err(Error::ChecksumError { .. })));
    assert_eq!(
        *calls.borrow(),
        vec![('w', 0x40, vec![0xFE]), ('w', 0x40, vec![0xE3]), ('r', 0x40, vec![3])]
    );
}

#[test]
fn new_writes_one_soft_reset_and_reads_use_their_commands() {
    let (mock, calls) = recording(vec![vec![0x68, 0x3A, 0x7C], vec![0x4E, 0x85, 0x6B]]);
    let mut device = HTU21DF::new(mock, TemperatureUnits::Celsuis).unwrap();
    assert_eq!(*calls.borrow(), vec![('w', 0x40, vec![0xFE])]);
    let data = device.read_sensors().unwrap();
    assert_eq!(data.temperature.get_temperature(), (24691, TemperatureUnits::Celsuis));
    assert_eq!(data.humidity, Humidity::Relative(32339));
    assert_eq!(
        *calls.borrow(),
        vec![
            ('w', 0x40, vec![0xFE]),
            ('w', 0x40, vec![0xE3]),
            ('r', 0x40, vec![3]),
            ('w', 0x40, vec![0xE5]),
            ('r', 0x40, vec![3]),
        ]
    );
}

#[test]
fn combine_reading_needs_both_results() {
    let t = Temperature::new(24691, TemperatureUnits::Celsuis);
    let ok = combine_reading(Ok(t), Ok(Humidity::Relative(32339)), 1234).unwrap();
    assert_eq!(ok.temperature.get_temperature(), (24691, TemperatureUnits::Celsuis));
    assert_eq!(ok.humidity, Humidity::Relative(32339));
    assert_eq!(ok.timestamp, 1234);
    assert!(matches!(combine_reading(Ok(t), Err(Error::Transport), 1234), Err(Error::Transport)));
    let checksum = Error::ChecksumError { expected: 1, actual: 2, data: vec![3, 4] };
    assert!(matches!(
        combine_reading(Err(checksum), Err(Error::Transport), 1234),
        Err(Error::ChecksumError { expected: 1, .. })
    ));
}

#[test]
fn combine_values_keeps_the_first_error() {
    let t = Temperature::new(1, TemperatureUnits::Fahrenheit);
    let only_t = combine_values(Some(Ok(t)), None).unwrap().values;
    assert_eq!(only_t.temperature.unwrap().get_temperature(), (1, TemperatureUnits::Fahrenheit));
    assert!(only_t.humidity.is_none());
    let checksum = Error::ChecksumError { expected: 1, actual: 2, data: vec![3, 4] };
    assert!(matches!(
        combine_values(Some(Ok(t)), Some(Err(checksum))),
        Err(Error::ChecksumError { .. })
    ));
    assert!(matches!(
        combine_values(Some(Err(Error::Transport)), Some(Ok(Humidity::Relative(5)))),
        Err(Error::Transport)
    ));
}
