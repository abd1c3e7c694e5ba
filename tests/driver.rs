use bench_psu::config::Config as SuppliesConfig;
use bench_psu::power_supplies::bk_precision_196x::{
    BkPrecision196X, Command, Config, BAUD_RATE, MAX_ADDRESS, PACING_INTERVAL_MS,
};
use bench_psu::power_supplies::{ConfigError, PowerSupply, PowerSupplyConfig, Transmission};
use bench_psu::request::{Operation, Request};

fn bk(address: u8) -> Config {
    Config { serial_interface: String::from("/dev/ttyUSB0"), address }
}

fn open(address: u8) -> (BkPrecision196X, Transmission) {
    bk(address).load().unwrap()
}

#[test]
fn address_field_is_two_zero_padded_digits() {
    for a in 0..=MAX_ADDRESS {
        let bytes = Command::Sess.encode(a);
        let expected = format!("SESS{:02}\r", a);
        assert_eq!(bytes, expected.into_bytes());
        assert_eq!(bytes.len(), 7);
    }
    assert_eq!(Command::Ends.encode(7), b"ENDS07\r".to_vec());
    assert_eq!(Command::Ends.encode(42), b"ENDS42\r".to_vec());
}

#[test]
fn address_above_range_is_a_configuration_error() {
    for a in [100u8, 101, 200, 255] {
        match bk(a).load() {
            Err(e) => assert_eq!(e, ConfigError::AddressOutOfRange { address: a }),
            Ok(_) => panic!("address {} accepted", a),
        }
    }
    assert!(bk(99).load().is_ok());
}

#[test]
fn load_sends_session_open() {
    let (driver, opening) = open(3);
    assert_eq!(driver.address(), 3);
    assert_eq!(opening.bytes, b"SESS03\r".to_vec());
    assert_eq!(opening.pause_ms, 100);
}

#[test]
fn voltage_is_scaled_by_ten_and_rounded() {
    let (mut d, _) = open(5);
    let t = d.set_voltage_limit(12340).unwrap();
    assert_eq!(t.bytes, b"VOLT05123\r".to_vec());
    let bytes = Command::Volt { millivolts: 12340 }.encode(5);
    assert_eq!(bytes.len(), 10);
    assert!(bytes[4..9].iter().all(|b| b.is_ascii_digit()));
    assert_eq!(Command::Volt { millivolts: 12350 }.encode(5), b"VOLT05124\r".to_vec());
    assert_eq!(Command::Volt { millivolts: 12349 }.encode(5), b"VOLT05123\r".to_vec());
    assert_eq!(Command::Volt { millivolts: 0 }.encode(0), b"VOLT00000\r".to_vec());
    assert_eq!(Command::Volt { millivolts: 99_900 }.encode(0), b"VOLT00999\r".to_vec());
}

#[test]
fn voltage_above_three_digits_is_passed_through() {
    assert_eq!(Command::Volt { millivolts: 100_000 }.encode(1), b"VOLT011000\r".to_vec());
}

#[test]
fn current_is_scaled_by_hundred_and_rounded_half_up() {
    let (mut d, _) = open(0);
    let t = d.set_current_limit(1005).unwrap();
    assert_eq!(t.bytes, b"CURR00101\r".to_vec());
    assert_ne!(t.bytes, b"CURR00100\r".to_vec());
    assert_eq!(Command::Curr { milliamps: 1004 }.encode(0), b"CURR00100\r".to_vec());
    assert_eq!(Command::Curr { milliamps: 1015 }.encode(0), b"CURR00102\r".to_vec());
    assert_eq!(Command::Curr { milliamps: u32::MAX }.encode(0), b"CURR00429496730\r".to_vec());
}

#[test]
fn current_from_float_amps() {
    let amps: f32 = 1.005;
    let milliamps = (amps * 1000.0).round() as u32;
    assert_eq!(milliamps, 1005);
    assert_eq!(Command::Curr { milliamps }.encode(0), b"CURR00101\r".to_vec());
}

#[test]
fn output_flag_is_inverted() {
    let (mut d, _) = open(0);
    assert_eq!(d.enable_output(true).unwrap().bytes, b"SOUT000\r".to_vec());
    assert_eq!(d.enable_output(false).unwrap().bytes, b"SOUT001\r".to_vec());
}

#[test]
fn every_command_is_followed_by_pacing() {
    let (mut d, opening) = open(12);
    assert_eq!(PACING_INTERVAL_MS, 100);
    let sent = vec![
        opening,
        d.set_voltage_limit(5000).unwrap(),
        d.set_current_limit(500).unwrap(),
        d.enable_output(true).unwrap(),
        d.close().unwrap(),
    ];
    for t in sent {
        assert_eq!(t.pause_ms, PACING_INTERVAL_MS);
    }
    let t = Command::Sout { enabled: false }.send(4);
    assert_eq!(t, Transmission { bytes: b"SOUT041\r".to_vec(), pause_ms: 100 });
}

#[test]
fn close_after_failed_write_still_ends_session() {
    let (mut d, _) = open(8);
    // The caller's write of this command failed; the session must still be closed.
    let _lost = d.set_voltage_limit(3300).unwrap();
    assert_eq!(d.close().unwrap().bytes, b"ENDS08\r".to_vec());
}

#[test]
fn end_to_end_power_on_session() {
    let request = Request::PowerOn { voltage_limit: Some(5000), current_limit: Some(500) };
    let (mut d, opening) = open(3);
    let mut frames = vec![opening.bytes];
    for op in request.operations() {
        let t = match op {
            Operation::SetVoltageLimit { millivolts } => d.set_voltage_limit(millivolts),
            Operation::SetCurrentLimit { milliamps } => d.set_current_limit(milliamps),
            Operation::EnableOutput { enabled } => d.enable_output(enabled),
        };
        frames.push(t.unwrap().bytes);
    }
    frames.push(d.close().unwrap().bytes);
    let expected: Vec<Vec<u8>> = vec![
        b"SESS03\r".to_vec(),
        b"VOLT03050\r".to_vec(),
        b"CURR03050\r".to_vec(),
        b"SOUT030\r".to_vec(),
        b"ENDS03\r".to_vec(),
    ];
    assert_eq!(frames, expected);
}

#[test]
fn request_operations_in_order() {
    assert_eq!(
        Request::PowerOn { voltage_limit: None, current_limit: Some(250) }.operations(),
        vec![
            Operation::SetCurrentLimit { milliamps: 250 },
            Operation::EnableOutput { enabled: true },
        ]
    );
    assert_eq!(
        Request::PowerOff.operations(),
        vec![Operation::EnableOutput { enabled: false }]
    );
    assert_eq!(
        Request::SetLimits { voltage_limit: Some(1200), current_limit: Some(100) }.operations(),
        vec![
            Operation::SetVoltageLimit { millivolts: 1200 },
            Operation::SetCurrentLimit { milliamps: 100 },
        ]
    );
    assert!(Request::SetLimits { voltage_limit: None, current_limit: None }
        .operations()
        .is_empty());
}

fn supplies() -> SuppliesConfig {
    SuppliesConfig {
        default_supply: String::from("bench"),
        power_supplies: vec![
            (String::from("bench"), PowerSupplyConfig::BkPrecision196X(bk(1))),
            (String::from("spare"), PowerSupplyConfig::BkPrecision196X(bk(27))),
            (String::from("broken"), PowerSupplyConfig::BkPrecision196X(bk(150))),
        ],
    }
}

#[test]
fn default_supply_is_used_when_none_is_chosen() {
    let (d, opening) = supplies().get_power_supply(None).unwrap();
    assert_eq!(d.address(), 1);
    assert_eq!(opening.bytes, b"SESS01\r".to_vec());
}

#[test]
fn chosen_supply_overrides_default() {
    let (d, opening) = supplies().get_power_supply(Some(String::from("spare"))).unwrap();
    assert_eq!(d.address(), 27);
    assert_eq!(opening.bytes, b"SESS27\r".to_vec());
}

#[test]
fn unknown_supply_is_a_configuration_error() {
    match supplies().get_power_supply(Some(String::from("missing"))) {
        Err(e) => assert_eq!(e, ConfigError::UnknownSupply { name: String::from("missing") }),
        Ok(_) => panic!("unknown supply accepted"),
    }
}

#[test]
fn configured_address_out_of_range_is_reported() {
    match supplies().get_power_supply(Some(String::from("broken"))) {
        Err(e) => assert_eq!(e, ConfigError::AddressOutOfRange { address: 150 }),
        Ok(_) => panic!("address 150 accepted"),
    }
}

#[test]
fn find_returns_first_match() {
    let mut s = supplies();
    s.power_supplies.push((String::from("bench"), PowerSupplyConfig::BkPrecision196X(bk(9))));
    match s.find(&String::from("bench")) {
        Some(PowerSupplyConfig::BkPrecision196X(c)) => assert_eq!(c.address, 1),
        None => panic!("bench not found"),
    }
    assert!(s.find(&String::from("nothing")).is_none());
}

#[test]
fn serial_line_speed() {
    assert_eq!(BAUD_RATE, 9600);
}
