//! Tests of the pure decode layer: sign extension, burst parsing, axis
//! swap, shutter assembly and report clamping.

use pmw3610::decode::clamp_to_i8;
use pmw3610::decode::decode_motion;
use pmw3610::decode::shutter_value;
use pmw3610::decode::sign_extend;
use pmw3610::MotionData;

#[test]
fn sign_extend_positive_values_unchanged() {
    assert_eq!(sign_extend(0), 0);
    assert_eq!(sign_extend(1), 1);
    assert_eq!(sign_extend(10), 10);
    assert_eq!(sign_extend(2047), 2047);
}

#[test]
fn sign_extend_high_values_negative() {
    assert_eq!(sign_extend(2048), -2048);
    assert_eq!(sign_extend(4095), -1);
    assert_eq!(sign_extend(0x0ffb), -5);
}

#[test]
fn sign_extend_matches_twos_complement_everywhere() {
    for v in 0u16..4096 {
        let expected = if v < 2048 { v as i32 } else { v as i32 - 4096 };
        assert_eq!(sign_extend(v) as i32, expected);
    }
}

#[test]
fn decode_assembles_signed_deltas() {
    // delta-X = -5 (0xffb), delta-Y = 10 (0x00a), motion bit set.
    let buf = [0x80u8, 0xfb, 0x0a, 0xf0];
    let m = decode_motion(&buf, false);
    assert_eq!(m, MotionData { dx: -5, dy: 10 });
}

#[test]
fn decode_no_motion_short_circuits_to_zero() {
    // Motion bit clear: zero sample regardless of the other byte contents.
    let buf = [0x7fu8, 0xff, 0xff, 0xff];
    let m = decode_motion(&buf, false);
    assert_eq!(m, MotionData { dx: 0, dy: 0 });
    let m_swapped = decode_motion(&buf, true);
    assert_eq!(m_swapped, MotionData { dx: 0, dy: 0 });
}

#[test]
fn decode_axis_swap_exchanges_deltas() {
    let buf = [0x80u8, 0xfb, 0x0a, 0xf0];
    let plain = decode_motion(&buf, false);
    let swapped = decode_motion(&buf, true);
    assert_eq!(swapped.dx, plain.dy);
    assert_eq!(swapped.dy, plain.dx);
    assert_eq!(swapped, MotionData { dx: 10, dy: -5 });
}

#[test]
fn shutter_assembles_big_endian() {
    assert_eq!(shutter_value(0x01, 0x2c), 300);
    assert_eq!(shutter_value(0x00, 45), 45);
    assert_eq!(shutter_value(0xff, 0xff), 0xffff);
}

#[test]
fn clamp_limits_to_report_range() {
    assert_eq!(clamp_to_i8(0), 0);
    assert_eq!(clamp_to_i8(10), 10);
    assert_eq!(clamp_to_i8(-5), -5);
    assert_eq!(clamp_to_i8(127), 127);
    assert_eq!(clamp_to_i8(128), 127);
    assert_eq!(clamp_to_i8(300), 127);
    assert_eq!(clamp_to_i8(-127), -127);
    assert_eq!(clamp_to_i8(-128), -127);
    assert_eq!(clamp_to_i8(-300), -127);
}
