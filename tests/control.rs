use kraken::control::{aggregate_temperature, smooth, target_speed, ControlState, SensorReading};
use kraken::sensor::{parse_i32, parse_reading, SensorError};
use kraken::temperature::Temperature;

fn reading(name: &str, milli: i32) -> SensorReading {
    SensorReading { name: name.to_string(), value: Temperature::from_millidegrees(milli) }
}

#[test]
fn aggregate_is_the_highest_reading() {
    let readings = vec![reading("A", 30000), reading("B", 45500), reading("C", 10000)];
    let t = aggregate_temperature(&readings);
    assert_eq!(t, Temperature::from_millidegrees(45500));
    assert!((t.units as f64 / 9000.0 - 45.5).abs() < 1e-9);
}

#[test]
fn aggregate_of_nothing_is_zero() {
    assert_eq!(aggregate_temperature(&vec![]).units, 0);
    assert_eq!(aggregate_temperature(&vec![reading("cold", -5000)]).units, 0);
}

#[test]
fn target_speed_maps_ceiling_to_full() {
    assert_eq!(target_speed(Temperature::from_millidegrees(70000)), 100);
    assert_eq!(target_speed(Temperature::from_millidegrees(35000)), 50);
    assert_eq!(target_speed(Temperature::from_millidegrees(45500)), 65);
    assert_eq!(target_speed(Temperature::from_millidegrees(699)), 0);
    assert_eq!(target_speed(Temperature::from_millidegrees(-3000)), 0);
    assert_eq!(target_speed(Temperature::from_millidegrees(1_000_000)), 255);
}

#[test]
fn smoothing_weights_history_seven_to_one() {
    assert_eq!(smooth(0, 100), 12);
    assert_eq!(smooth(12, 100), 23);
    assert_eq!(smooth(80, 0), 70);
    assert_eq!(smooth(255, 255), 255);
}

#[test]
fn smoothing_converges_without_overshoot() {
    let mut speed: u8 = 0;
    for _ in 0..200 {
        let next = smooth(speed, 100);
        assert!(next >= speed);
        assert!(next <= 100);
        speed = next;
    }
    assert_eq!(speed, 93);
}

#[test]
fn same_aggregate_emits_once() {
    let mut state = ControlState::new();
    let readings = vec![reading("CPU", 56000), reading("Water", 31000)];
    assert_eq!(state.poll(&readings), Some(10));
    assert_eq!(state.poll(&readings), None);
    assert_eq!(state.previous_target_speed, 10);
    assert_eq!(state.previous_aggregate, Temperature::from_millidegrees(56000));
}

#[test]
fn zero_aggregate_at_start_emits_nothing() {
    let mut state = ControlState::new();
    assert_eq!(state.step(Temperature::zero()), None);
    assert_eq!(state, ControlState::new());
}

#[test]
fn parses_signed_integers() {
    assert_eq!(parse_i32(b"42"), Some(42));
    assert_eq!(parse_i32(b"-17"), Some(-17));
    assert_eq!(parse_i32(b"+8"), Some(8));
    assert_eq!(parse_i32(b"2147483647"), Some(i32::MAX));
    assert_eq!(parse_i32(b"-2147483648"), Some(i32::MIN));
    assert_eq!(parse_i32(b"2147483648"), None);
    assert_eq!(parse_i32(b"99999999999999999999x"), None);
    assert_eq!(parse_i32(b""), None);
    assert_eq!(parse_i32(b"-"), None);
    assert_eq!(parse_i32(b"4 2"), None);
}

#[test]
fn reads_hwmon_text() {
    assert_eq!(parse_reading(b"45500\n"), Ok(Temperature::from_millidegrees(45500)));
    assert_eq!(parse_reading(b"45500\n").unwrap().units, 409500);
    assert_eq!(parse_reading(b"45000"), Ok(Temperature::from_millidegrees(45000)));
    assert_eq!(parse_reading(b"45000").unwrap().units, 405000);
    assert_eq!(parse_reading(b"-1500\n").unwrap().units, -13500);
    assert_eq!(parse_reading(b""), Err(SensorError::Empty));
    assert_eq!(parse_reading(b"45000 "), Err(SensorError::NotAnInteger));
    assert_eq!(parse_reading(b"\n"), Err(SensorError::NotAnInteger));
    assert_eq!(parse_reading(b"hot\n"), Err(SensorError::NotAnInteger));
}
