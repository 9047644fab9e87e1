use moisture_sensor::bus::{settle, Bus, BusFault, RawBus, Recorded};
use moisture_sensor::i2c::constants::addresses::DEFAULT;
use moisture_sensor::i2c::{ErrorStatus, Led, MoistureSensorI2c, MoistureSensorI2cError};

/// A transport that notes every call and answers reads with a fixed string
/// of bytes, whatever count was asked for.
struct Canned {
    answer: Vec<u8>,
    fail: bool,
    calls: Vec<(u8, Vec<u8>, Option<usize>)>,
}

impl Canned {
    fn new(answer: Vec<u8>, fail: bool) -> Canned {
        Canned { answer, fail, calls: Vec::new() }
    }
}

impl RawBus for Canned {
    fn write(&mut self, address: u8, bytes: &[u8]) -> Result<(), BusFault> {
        self.calls.push((address, bytes.to_vec(), None));
        if self.fail {
            Err(BusFault)
        } else {
            Ok(())
        }
    }

    fn write_read(&mut self, address: u8, bytes: &[u8], count: usize) -> Result<Vec<u8>, BusFault> {
        self.calls.push((address, bytes.to_vec(), Some(count)));
        if self.fail {
            Err(BusFault)
        } else {
            Ok(self.answer.clone())
        }
    }
}

fn text(err: MoistureSensorI2cError) -> String {
    match err {
        MoistureSensorI2cError::IOError(m) => m,
    }
}

#[test]
fn recorded_hands_calls_through() {
    let mut bus = Recorded::new(Canned::new(vec![0x0A, 0x0B], false));
    assert_eq!(bus.write(0x10, &[0x01, 0x02]), Ok(()));
    let mut buffer = [0u8; 2];
    assert_eq!(bus.write_read(0x10, &[0x03], &mut buffer), Ok(()));
    assert_eq!(buffer, [0x0A, 0x0B]);
    let transport = bus.into_inner();
    assert_eq!(
        transport.calls,
        vec![(0x10, vec![0x01, 0x02], None), (0x10, vec![0x03], Some(2))]
    );
}

#[test]
fn recorded_passes_faults_on() {
    let mut bus = Recorded::new(Canned::new(vec![0x0A, 0x0B], true));
    assert_eq!(bus.write(0x10, &[0x01]), Err(BusFault));
    let mut buffer = [0x55u8; 2];
    assert_eq!(bus.write_read(0x10, &[0x03], &mut buffer), Err(BusFault));
    assert_eq!(buffer, [0x55, 0x55]);
    assert_eq!(bus.into_inner().calls.len(), 2);
}

#[test]
fn recorded_knows_no_partial_success() {
    // Too few bytes.
    let mut short = Recorded::new(Canned::new(vec![0x0A], false));
    let mut buffer = [0x55u8; 2];
    assert_eq!(short.write_read(0x10, &[0x03], &mut buffer), Err(BusFault));
    assert_eq!(buffer, [0x55, 0x55]);
    // Too many bytes.
    let mut long = Recorded::new(Canned::new(vec![0x0A, 0x0B, 0x0C], false));
    assert_eq!(long.write_read(0x10, &[0x03], &mut buffer), Err(BusFault));
    assert_eq!(buffer, [0x55, 0x55]);
}

#[test]
fn driver_over_a_recorded_transport() {
    let transport = Canned::new(vec![0x01, 0x2C], false);
    let mut dev = MoistureSensorI2c::new(Recorded::new(transport), DEFAULT);
    assert_eq!(dev.get_moisture_level().unwrap(), 300);
    dev.set_led(Led::On).unwrap();
    dev.set_led(Led::Off).unwrap();
    dev.set_address(0x50).unwrap();
    // The answer has two bytes, a status reading asks for one.
    assert_eq!(text(dev.get_error_status().unwrap_err()), "Error reading error status.");
    let transport = dev.release().into_inner();
    assert_eq!(
        transport.calls,
        vec![
            (0x28, vec![0x05], Some(2)),
            (0x28, vec![0x01], None),
            (0x28, vec![0x00], None),
            (0x28, vec![0x03, 0x50], None),
            (0x28, vec![0x3F], Some(1)),
        ]
    );
}

#[test]
fn driver_reads_status_over_a_recorded_transport() {
    let mut on = MoistureSensorI2c::new(Recorded::new(Canned::new(vec![0x03], false)), DEFAULT);
    assert_eq!(on.get_error_status().unwrap(), ErrorStatus::On);
    let mut off = MoistureSensorI2c::new(Recorded::new(Canned::new(vec![0x02], false)), DEFAULT);
    assert_eq!(off.get_error_status().unwrap(), ErrorStatus::Off);
}

#[test]
fn driver_makes_one_call_per_failed_operation() {
    let mut dev = MoistureSensorI2c::new(Recorded::new(Canned::new(vec![], true)), 0x42);
    assert_eq!(text(dev.get_moisture_level().unwrap_err()), "Error reading moisture level.");
    assert_eq!(text(dev.set_led(Led::Off).unwrap_err()), "Error setting the LED.");
    assert_eq!(text(dev.get_error_status().unwrap_err()), "Error reading error status.");
    assert_eq!(text(dev.set_address(0x51).unwrap_err()), "Error setting address");
    let transport = dev.release().into_inner();
    assert_eq!(
        transport.calls,
        vec![
            (0x42, vec![0x05], Some(2)),
            (0x42, vec![0x00], None),
            (0x42, vec![0x3F], Some(1)),
            (0x42, vec![0x03, 0x51], None),
        ]
    );
}

#[test]
fn settle_takes_a_complete_answer() {
    let mut buffer = [0u8; 2];
    assert_eq!(settle(Ok(vec![0x01, 0x2C]), &mut buffer), Ok(()));
    assert_eq!(buffer, [0x01, 0x2C]);

    let mut one = [0x55u8; 1];
    assert_eq!(settle(Ok(vec![0x3F]), &mut one), Ok(()));
    assert_eq!(one, [0x3F]);

    let mut none = [0u8; 0];
    assert_eq!(settle(Ok(vec![]), &mut none), Ok(()));
}

#[test]
fn settle_refuses_an_answer_of_another_length() {
    let mut buffer = [0x55u8; 2];
    assert_eq!(settle(Ok(vec![0x01]), &mut buffer), Err(BusFault));
    assert_eq!(buffer, [0x55, 0x55]);
    assert_eq!(settle(Ok(vec![0x01, 0x02, 0x03]), &mut buffer), Err(BusFault));
    assert_eq!(buffer, [0x55, 0x55]);
    assert_eq!(settle(Ok(vec![]), &mut buffer), Err(BusFault));
    assert_eq!(buffer, [0x55, 0x55]);

    let mut none = [0u8; 0];
    assert_eq!(settle(Ok(vec![0x01]), &mut none), Err(BusFault));
}

#[test]
fn settle_passes_a_fault_on() {
    let mut buffer = [0x55u8; 2];
    assert_eq!(settle(Err(BusFault), &mut buffer), Err(BusFault));
    assert_eq!(buffer, [0x55, 0x55]);

    let mut none = [0u8; 0];
    assert_eq!(settle(Err(BusFault), &mut none), Err(BusFault));
}
