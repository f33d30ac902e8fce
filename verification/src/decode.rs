//! Pure sample decoding: 12-bit sign extension, burst-buffer parsing, axis
//! swap, the shutter-driven smart-mode rule, and clamping for emission.
//!
//! Everything here is a function of plain bytes; the bus driver feeds it
//! with what the sensor returned.

use vstd::prelude::*;

use crate::regs::BURST_DATA_LEN_NORMAL;
use crate::regs::BURST_DELTA_X_L;
use crate::regs::BURST_DELTA_XY_H;
use crate::regs::BURST_DELTA_Y_L;
use crate::regs::BURST_MOTION;
use crate::regs::DATA_FIELD_MASK;
use crate::regs::DATA_SIGN_BIT;
use crate::regs::MOTION_STATUS_MOTION;
use crate::regs::SHUTTER_SMART_THRESHOLD;
use crate::regs::SMART_MODE_DISABLE;
use crate::regs::SMART_MODE_ENABLE;
use crate::types::MotionData;

verus! {

/// The two's-complement interpretation of a 12-bit field: values below 2048
/// are themselves, values from 2048 up stand for their value minus 4096.
pub open spec fn spec_sign_extend(value: u16) -> i16
    recommends
        value < 4096,
{
    if value < 2048 {
        value as i16
    } else {
        (value - 4096) as i16
    }
}

/// Sign-extend a 12-bit field to a signed 16-bit value.
pub fn sign_extend(value: u16) -> (r: i16)
    requires
        value < 4096,
    ensures
        r == spec_sign_extend(value),
{
    if value & DATA_SIGN_BIT != 0 {
        proof {
            assert(value < 4096 && value & 0x0800u16 != 0 ==> (value | !0x0fffu16) as i16 == (value
                - 4096) as i16 && value >= 2048) by (bit_vector);
        }
        (value | !DATA_FIELD_MASK) as i16
    } else {
        proof {
            assert(value < 4096 && value & 0x0800u16 == 0 ==> value < 2048) by (bit_vector);
        }
        value as i16
    }
}

/// The raw 12-bit X delta: the high nibble of the shared high byte over the
/// X low byte.
pub open spec fn spec_raw_x(hi: u8, lo: u8) -> u16 {
    (((hi as int) / 16) * 256 + lo as int) as u16
}

/// The raw 12-bit Y delta: the low nibble of the shared high byte over the
/// Y low byte.
pub open spec fn spec_raw_y(hi: u8, lo: u8) -> u16 {
    (((hi as int) % 16) * 256 + lo as int) as u16
}

/// The 16-bit shutter value carried by the extended burst frame.
pub open spec fn spec_shutter(hi: u8, lo: u8) -> u16 {
    ((hi as int) * 256 + lo as int) as u16
}

/// Whether the motion-status byte has its motion-pending bit set.
pub open spec fn spec_motion_bit(b0: u8) -> bool {
    b0 & MOTION_STATUS_MOTION != 0
}

/// What a burst buffer decodes to: the zero sample when the motion bit is
/// clear, otherwise the two sign-extended 12-bit deltas, exchanged when the
/// axes are configured swapped.
pub open spec fn spec_decode_motion(buf: Seq<u8>, swap_xy: bool) -> MotionData
    recommends
        buf.len() >= BURST_DATA_LEN_NORMAL,
{
    if !spec_motion_bit(buf[0]) {
        MotionData { dx: 0i16, dy: 0i16 }
    } else {
        let dx = spec_sign_extend(spec_raw_x(buf[3], buf[1]));
        let dy = spec_sign_extend(spec_raw_y(buf[3], buf[2]));
        if swap_xy {
            MotionData { dx: dy, dy: dx }
        } else {
            MotionData { dx, dy }
        }
    }
}

/// Parse a burst buffer into a motion sample.
///
/// A buffer with the motion-status bit clear decodes to the zero sample with
/// no further parsing, whatever the other bytes hold.
pub fn decode_motion(buf: &[u8], swap_xy: bool) -> (m: MotionData)
    requires
        buf@.len() >= BURST_DATA_LEN_NORMAL,
    ensures
        m == spec_decode_motion(buf@, swap_xy),
        !spec_motion_bit(buf@[0]) ==> m == (MotionData { dx: 0i16, dy: 0i16 }),
{
    if (buf[BURST_MOTION] & MOTION_STATUS_MOTION) == 0x00 {
        return MotionData { dx: 0, dy: 0 };
    }
    let b1 = buf[BURST_DELTA_X_L];
    let b2 = buf[BURST_DELTA_Y_L];
    let b3 = buf[BURST_DELTA_XY_H];

    let x = ((b3 as u16) << 4u16) & 0xf00 | (b1 as u16);
    let y = ((b3 as u16) << 8u16) & 0xf00 | (b2 as u16);
    proof {
        assert(((b3 as u16) << 4u16) & 0xf00 | (b1 as u16) == ((b3 as int) / 16) * 256 + b1 as int
            && ((b3 as u16) << 8u16) & 0xf00 | (b2 as u16) == ((b3 as int) % 16) * 256 + b2 as int)
            by (bit_vector);
        assert(x == spec_raw_x(b3, b1));
        assert(y == spec_raw_y(b3, b2));
        assert(x < 4096 && y < 4096) by (bit_vector)
            requires
                x == ((b3 as u16) << 4u16) & 0xf00 | (b1 as u16) && y == ((b3 as u16) << 8u16)
                    & 0xf00 | (b2 as u16),
        ;
    }
    let dx = sign_extend(x);
    let dy = sign_extend(y);

    if swap_xy {
        MotionData { dx: dy, dy: dx }
    } else {
        MotionData { dx, dy }
    }
}

/// Axis swap: one and the same burst buffer, decoded with the axes swapped,
/// yields the deltas of the plain decode with X and Y exchanged.
pub proof fn lemma_axis_swap(buf: Seq<u8>)
    requires
        buf.len() >= BURST_DATA_LEN_NORMAL,
    ensures
        spec_decode_motion(buf, true).dx == spec_decode_motion(buf, false).dy,
        spec_decode_motion(buf, true).dy == spec_decode_motion(buf, false).dx,
{
}

/// Combine the two shutter bytes of an extended burst frame.
pub fn shutter_value(hi: u8, lo: u8) -> (s: u16)
    ensures
        s == spec_shutter(hi, lo),
{
    proof {
        assert(((hi as u16) << 8u16) | (lo as u16) == (hi as int) * 256 + lo as int)
            by (bit_vector);
    }
    ((hi as u16) << 8u16) | (lo as u16)
}

/// The register value a shutter observation asks to be written, if any:
/// leaving the sensitive regime below the threshold enables smart mode,
/// entering it above the threshold disables smart mode, and a value on the
/// side the flag already records asks for nothing.
pub open spec fn spec_smart_toggle(flag: bool, shutter: u16) -> Option<u8> {
    if flag && shutter < SHUTTER_SMART_THRESHOLD {
        Some(SMART_MODE_ENABLE)
    } else if !flag && shutter > SHUTTER_SMART_THRESHOLD {
        Some(SMART_MODE_DISABLE)
    } else {
        None
    }
}

/// The smart-mode flag after one shutter observation: it flips exactly when
/// a toggle write is issued.
pub open spec fn spec_smart_flag_next(flag: bool, shutter: u16) -> bool {
    if spec_smart_toggle(flag, shutter) is Some {
        !flag
    } else {
        flag
    }
}

/// The smart-mode flag after a whole run of shutter observations.
pub open spec fn spec_smart_flag_after(flag: bool, shutters: Seq<u16>) -> bool
    decreases shutters.len(),
{
    if shutters.len() == 0 {
        flag
    } else {
        spec_smart_flag_after(spec_smart_flag_next(flag, shutters[0]), shutters.drop_first())
    }
}

/// How many mode-toggle writes a run of shutter observations issues.
pub open spec fn spec_smart_toggle_count(flag: bool, shutters: Seq<u16>) -> nat
    decreases shutters.len(),
{
    if shutters.len() == 0 {
        0nat
    } else {
        (if spec_smart_toggle(flag, shutters[0]) is Some {
            1nat
        } else {
            0nat
        }) + spec_smart_toggle_count(
            spec_smart_flag_next(flag, shutters[0]),
            shutters.drop_first(),
        )
    }
}

/// Processing a concatenated run is processing the first part, then the
/// second from the flag the first part left behind.
pub proof fn lemma_smart_run_concat(flag: bool, s: Seq<u16>, t: Seq<u16>)
    ensures
        spec_smart_flag_after(flag, s + t) == spec_smart_flag_after(
            spec_smart_flag_after(flag, s),
            t,
        ),
        spec_smart_toggle_count(flag, s + t) == spec_smart_toggle_count(flag, s)
            + spec_smart_toggle_count(spec_smart_flag_after(flag, s), t),
    decreases s.len(),
{
    if s.len() == 0 {
        assert(s + t =~= t);
    } else {
        assert((s + t).drop_first() =~= s.drop_first() + t);
        lemma_smart_run_concat(spec_smart_flag_next(flag, s[0]), s.drop_first(), t);
    }
}

/// Shutter values that all sit on the side the flag already records issue no
/// register traffic and leave the flag alone.
pub proof fn lemma_smart_run_steady(flag: bool, shutters: Seq<u16>)
    requires
        forall|i: int| 0 <= i < shutters.len() ==> spec_smart_toggle(flag, shutters[i]) is None,
    ensures
        spec_smart_flag_after(flag, shutters) == flag,
        spec_smart_toggle_count(flag, shutters) == 0,
    decreases shutters.len(),
{
    if shutters.len() > 0 {
        assert(spec_smart_toggle(flag, shutters[0]) is None);
        lemma_smart_run_steady(flag, shutters.drop_first());
    }
}

/// A run whose first observation crosses and whose remainder stays on the
/// new side issues exactly one toggle write.
pub proof fn lemma_smart_run_one_crossing(flag: bool, shutters: Seq<u16>)
    requires
        shutters.len() > 0,
        spec_smart_toggle(flag, shutters[0]) is Some,
        forall|i: int| 1 <= i < shutters.len() ==> spec_smart_toggle(!flag, shutters[i]) is None,
    ensures
        spec_smart_flag_after(flag, shutters) == !flag,
        spec_smart_toggle_count(flag, shutters) == 1,
{
    assert(spec_smart_flag_next(flag, shutters[0]) == !flag);
    assert(forall|i: int|
        0 <= i < shutters.drop_first().len() ==> spec_smart_toggle(
            !flag,
            shutters.drop_first()[i],
        ) is None);
    lemma_smart_run_steady(!flag, shutters.drop_first());
}

/// Smart-mode hysteresis: a run of shutter values that starts at or below
/// the threshold, rises above it, and finally falls below it — crossing the
/// threshold exactly once in each direction — issues exactly two mode-toggle
/// register writes, not one per sample.
pub proof fn lemma_smart_mode_hysteresis(low0: Seq<u16>, high: Seq<u16>, low1: Seq<u16>)
    requires
        forall|i: int| 0 <= i < low0.len() ==> low0[i] <= SHUTTER_SMART_THRESHOLD,
        forall|i: int| 0 <= i < high.len() ==> high[i] > SHUTTER_SMART_THRESHOLD,
        forall|i: int| 0 <= i < low1.len() ==> low1[i] < SHUTTER_SMART_THRESHOLD,
        high.len() > 0,
        low1.len() > 0,
    ensures
        spec_smart_toggle_count(false, low0 + high + low1) == 2,
        spec_smart_flag_after(false, low0 + high + low1) == false,
{
    lemma_smart_run_steady(false, low0);
    lemma_smart_run_one_crossing(false, high);
    lemma_smart_run_one_crossing(true, low1);
    lemma_smart_run_concat(false, low0, high + low1);
    lemma_smart_run_concat(false, high, low1);
    assert(low0 + high + low1 =~= low0 + (high + low1));
}

/// The clamp of a signed 16-bit delta into the 8-bit range a report carries.
pub open spec fn spec_clamp_i8(v: i16) -> i8 {
    if v < -127 {
        -127i8
    } else if v > 127 {
        127i8
    } else {
        v as i8
    }
}

/// Clamp a delta to the 8-bit signed range used in emitted reports.
pub fn clamp_to_i8(v: i16) -> (r: i8)
    ensures
        r == spec_clamp_i8(v),
{
    if v < -127 {
        -127
    } else if v > 127 {
        127
    } else {
        v as i8
    }
}

} // verus!
