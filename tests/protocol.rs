use kraken::command::{color_msg, encode_speed, fixed_color_frame, random_color_frames, Channel, RGB};
use kraken::status::{Anomaly, Status};
use kraken::temperature::Temperature;

const WELL_FORMED: [u8; 17] = [
    0x04, 20, 3, 0x02, 0x58, 0x01, 0x2c, 0x00, 0x00, 0x00, 0xff, 0x02, 0x00, 0x01, 0x08, 0x1e, 0x00,
];

#[test]
fn short_frames_decode_to_neutral() {
    for len in 0..=6usize {
        let buf = [0xabu8; 6];
        let status = Status::decode_status(&buf[0..len]);
        assert_eq!(status.temp.units, 0);
        assert_eq!(status.fan, 0);
        assert_eq!(status.pump, 0);
    }
}

#[test]
fn decodes_temperature_and_speeds() {
    let status = Status::decode_status(&WELL_FORMED);
    assert_eq!(status.temp, Temperature::from_status_bytes(20, 3));
    let degrees = status.temp.units as f64 / 9000.0;
    assert!((degrees - (20.0 + 3.0 / 9.0)).abs() < 1e-9);
    assert_eq!(status.fan, 0x0258);
    assert_eq!(status.fan, 600);
    assert_eq!(status.pump, 0x012c);
    assert_eq!(status.pump, 300);
}

#[test]
fn decodes_seven_byte_frame() {
    let status = Status::decode_status(&WELL_FORMED[0..7]);
    assert_eq!(status.temp.units, 183000);
    assert_eq!(status.fan, 600);
    assert_eq!(status.pump, 300);
}

#[test]
fn well_formed_frame_has_no_anomalies() {
    assert!(Status::anomalies(&WELL_FORMED).is_empty());
}

#[test]
fn anomalies_are_reported_in_order() {
    let mut buf = WELL_FORMED.to_vec();
    buf[0] = 0x05;
    buf[10] = 0xfe;
    buf.push(0x99);
    let found = Status::anomalies(&buf);
    assert_eq!(
        found,
        vec![
            Anomaly::Length { len: 18 },
            Anomaly::FirstByte { found: 0x05 },
            Anomaly::Byte { index: 10, found: 0xfe, expected: 0xff },
        ]
    );
    // the decoded values do not depend on the anomalies
    assert_eq!(Status::decode_status(&buf), Status::decode_status(&WELL_FORMED));
}

#[test]
fn empty_frame_reports_only_its_length() {
    assert_eq!(Status::anomalies(&[]), vec![Anomaly::Length { len: 0 }]);
}

#[test]
fn speed_is_clamped() {
    assert_eq!(encode_speed(Channel::Fan, 150), encode_speed(Channel::Fan, 100));
    assert_eq!(encode_speed(Channel::Fan, 255), [0x02, 0x4d, 0x00, 0x00, 100]);
    assert_eq!(encode_speed(Channel::Fan, 42), [0x02, 0x4d, 0x00, 0x00, 42]);
}

#[test]
fn pump_speed_zero() {
    assert_eq!(encode_speed(Channel::Pump, 0), [0x02, 0x4d, 0x40, 0x00, 0x00]);
}

#[test]
fn color_frame_layout() {
    let text = RGB { r: 1, g: 2, b: 3 };
    let palette = [RGB { r: 9, g: 9, b: 9 }; 8];
    let frame = color_msg(0x04, 5, text, &palette);
    assert_eq!(&frame[0..8], &[0x02, 0x4c, 0x00, 0x04, 0x02 | (5 << 5), 2, 1, 3]);
    for k in 0..8 {
        assert_eq!(&frame[8 + 3 * k..11 + 3 * k], &[1, 2, 3]);
    }
    // only the low three bits of the step are sent
    assert_eq!(color_msg(0x04, 13, text, &palette)[4], 0x02 | (5 << 5));
}

#[test]
fn fixed_color_uses_fixed_mode() {
    let text = RGB { r: 10, g: 20, b: 30 };
    let frame = fixed_color_frame(text, &[text; 8]);
    assert_eq!(&frame[0..8], &[0x02, 0x4c, 0x00, 0x06, 0x02, 20, 10, 30]);
}

#[test]
fn random_sequence_has_eight_steps() {
    let frames = random_color_frames();
    assert_eq!(frames.len(), 8);
    for (step, frame) in frames.iter().enumerate() {
        assert_eq!(&frame[0..4], &[0x02, 0x4c, 0x00, 0x04]);
        assert_eq!(frame[4], 0x02 | ((step as u8) << 5));
        assert_eq!(frame[8], frame[6]);
        assert_eq!(frame[9], frame[5]);
        assert_eq!(frame[10], frame[7]);
    }
}
