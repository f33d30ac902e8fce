//! The PMW3610 bus driver: bit-banged half-duplex SPI transport, the
//! register protocol, the power-on configuration sequence, the resolution
//! and force-awake setters, and the motion burst read with the adaptive
//! smart-mode rule.
//!
//! The driver keeps a ghost transcript (`bus_ops`) of every observable step
//! it takes: register transactions with the bytes the sensor answered,
//! millisecond-scale waits, and samples of the motion-pending line.
//! Contracts are stated over that transcript: what a setter writes, in what
//! order, that a read-modify-write keeps the unrelated bits of the byte it
//! actually read, and that rejected inputs cause no bus traffic at all. The
//! answered bytes themselves are outside the model, so contracts quantify
//! over them.

use vstd::prelude::*;

use crate::decode::decode_motion;
use crate::decode::shutter_value;
use crate::decode::spec_decode_motion;
use crate::decode::spec_motion_bit;
use crate::decode::spec_shutter;
use crate::decode::spec_smart_flag_next;
use crate::decode::spec_smart_toggle;
use crate::hal::BidirectionalPin;
use crate::hal::DelayProvider;
use crate::hal::InputPin;
use crate::hal::OutputPin;
use crate::regs::BURST_DATA_LEN_NORMAL;
use crate::regs::BURST_DATA_LEN_SMART;
use crate::regs::BURST_MOTION;
use crate::regs::BURST_SHUTTER_HI;
use crate::regs::BURST_SHUTTER_LO;
use crate::regs::CLOCK_ON_DELAY_US;
use crate::regs::INIT_OBSERVATION_DELAY_MS;
use crate::regs::MOTION_STATUS_MOTION;
use crate::regs::OBSERVATION1_INIT_MASK;
use crate::regs::PERFORMANCE_FMODE_FORCE_AWAKE;
use crate::regs::PERFORMANCE_FMODE_MASK;
use crate::regs::PERFORMANCE_FMODE_NORMAL;
use crate::regs::PERFORMANCE_INIT;
use crate::regs::PMW3610_BURST_READ;
use crate::regs::PMW3610_DELTA_X_L;
use crate::regs::PMW3610_DELTA_XY_H;
use crate::regs::PMW3610_DELTA_Y_L;
use crate::regs::PMW3610_MOTION;
use crate::regs::PMW3610_OBSERVATION1;
use crate::regs::PMW3610_PERFORMANCE;
use crate::regs::PMW3610_POWER_UP_RESET;
use crate::regs::PMW3610_PROD_ID;
use crate::regs::PMW3610_RES_STEP;
use crate::regs::PMW3610_REST1_DOWNSHIFT;
use crate::regs::PMW3610_REST1_RATE;
use crate::regs::PMW3610_RUN_DOWNSHIFT;
use crate::regs::PMW3610_SMART_MODE;
use crate::regs::PMW3610_SPI_CLK_ON_REQ;
use crate::regs::PMW3610_SPI_PAGE0;
use crate::regs::PMW3610_SPI_PAGE1;
use crate::regs::POWER_UP_RESET_VAL;
use crate::regs::PRODUCT_ID_PMW3610;
use crate::regs::RES_MAX;
use crate::regs::RES_MIN;
use crate::regs::RES_STEP;
use crate::regs::RES_STEP_INV_X_BIT;
use crate::regs::RES_STEP_INV_Y_BIT;
use crate::regs::RES_STEP_RES_MASK;
use crate::regs::REST1_DOWNSHIFT_INIT;
use crate::regs::REST1_RATE_INIT;
use crate::regs::RESET_DELAY_MS;
use crate::regs::RUN_DOWNSHIFT_INIT;
use crate::regs::SHUTTER_SMART_THRESHOLD;
use crate::regs::SMART_MODE_DISABLE;
use crate::regs::SMART_MODE_ENABLE;
use crate::regs::SPI_CLOCK_ON_REQ_OFF;
use crate::regs::SPI_CLOCK_ON_REQ_ON;
use crate::regs::SPI_PAGE0_1;
use crate::regs::SPI_PAGE1_0;
use crate::regs::SPI_WRITE;
use crate::regs::T_BEXIT_US;
use crate::regs::T_NCS_SCLK_US;
use crate::regs::T_SCLK_NCS_WR_US;
use crate::regs::T_SRAD_US;
use crate::regs::T_SRX_US;
use crate::regs::T_SWX_US;
use crate::types::MotionData;
use crate::types::Pmw3610Config;
use crate::types::Pmw3610Error;

verus! {

/// One observable step of the driver, as recorded in its ghost transcript:
/// a register-level bus transaction, a millisecond-scale wait, or a sample
/// of the motion-pending line. Addresses are the logical register addresses;
/// the read/write marker bit and the microsecond-scale settle delays belong
/// to the wire encoding below this level. Reads carry the byte the sensor
/// answered with, so contracts can tie later writes to it.
pub enum BusOp {
    /// A single-register read and the byte it returned.
    Read(u8, u8),
    /// A single-register write of the given value.
    Write(u8, u8),
    /// A burst read and the bytes it returned.
    BurstRead(u8, Seq<u8>),
    /// A millisecond-scale wait (reset settle, calibration settle, retry
    /// backoff).
    WaitMs(u32),
    /// A sample of the motion-pending signal, true when pending.
    MotionGate(bool),
}

/// One command given to, or sample taken from, the SPI wire: the pin-level
/// view below the register transactions. The driver keeps a second ghost
/// transcript of these, and the transport's contracts fix it exactly: which
/// line is driven to which level, in what order, with which delays between.
pub enum PinOp {
    /// The data line switched to output mode.
    SdioOutput,
    /// The data line switched to input mode.
    SdioInput,
    /// The data line driven to the given level.
    SdioLevel(bool),
    /// The clock line driven to the given level.
    SckLevel(bool),
    /// The chip-select line driven to the given level (active low).
    CsLevel(bool),
    /// The data line sampled at the given level.
    SdioSample(bool),
    /// One short busy-wait tier between bit transitions.
    SpiDelay,
    /// One longer busy-wait tier at a transaction edge.
    ShortDelay,
    /// A microsecond-scale wait of the given length.
    DelayUs(u32),
    /// A millisecond-scale wait of the given length.
    DelayMs(u32),
}

/// Bit `i` of a byte.
pub open spec fn spec_bit(byte: u8, i: u8) -> bool
    recommends
        i < 8,
{
    (byte >> i) & 1 == 1
}

/// Setting one bit of a byte leaves every other bit as it was.
proof fn lemma_or_bit(b: u8, i: u8, j: u8)
    by (bit_vector)
    requires
        i < 8,
        j < 8,
    ensures
        spec_bit((b | (1u8 << i)), j) == (j == i || spec_bit(b, j)),
{
}

/// Whether `b` is the MSB-first assembly of eight sampled line levels: bit
/// 7 of `b` is the first sample, bit 0 the last.
pub open spec fn spec_wire_byte(levels: Seq<bool>, b: u8) -> bool {
    &&& levels.len() == 8
    &&& forall|k: int| 0 <= k < 8 ==> spec_bit(b, (7 - k) as u8) == levels[k]
}

/// The wire sequence that shifts one bit out: the data line driven to the
/// bit's level, then a clock pulse, each phase held one short tier.
pub open spec fn spec_bit_write_ops(bit: bool) -> Seq<PinOp> {
    seq![
        PinOp::SdioLevel(bit),
        PinOp::SpiDelay,
        PinOp::SckLevel(false),
        PinOp::SpiDelay,
        PinOp::SckLevel(true),
        PinOp::SpiDelay,
    ]
}

/// The wire sequence that shifts out bits 7 down to `i` of `byte`, in that
/// order (the whole byte for `i == 0`).
pub open spec fn spec_shift_out_ops(byte: u8, i: u8) -> Seq<PinOp>
    decreases 8 - i,
{
    if i >= 8 {
        Seq::empty()
    } else {
        spec_shift_out_ops(byte, (i + 1) as u8) + spec_bit_write_ops(spec_bit(byte, i))
    }
}

/// The whole commanded wire sequence of one byte written: the data line
/// switched to output, then the eight bits MSB first.
pub open spec fn spec_write_byte_ops(byte: u8) -> Seq<PinOp> {
    seq![PinOp::SdioOutput] + spec_shift_out_ops(byte, 0)
}

/// The wire sequence that shifts one bit in: a clock pulse, then a sample of
/// the data line.
pub open spec fn spec_bit_read_ops(level: bool) -> Seq<PinOp> {
    seq![
        PinOp::SckLevel(false),
        PinOp::SpiDelay,
        PinOp::SckLevel(true),
        PinOp::SpiDelay,
        PinOp::SdioSample(level),
    ]
}

/// The wire sequence that samples the given levels, first to last.
pub open spec fn spec_read_shift_ops(levels: Seq<bool>) -> Seq<PinOp>
    decreases levels.len(),
{
    if levels.len() == 0 {
        Seq::empty()
    } else {
        spec_read_shift_ops(levels.drop_last()) + spec_bit_read_ops(levels.last())
    }
}

/// The whole wire sequence of one byte read: the data line switched to
/// input, then eight samples, each after a clock pulse.
pub open spec fn spec_read_byte_ops(levels: Seq<bool>) -> Seq<PinOp> {
    seq![PinOp::SdioInput] + spec_read_shift_ops(levels)
}

/// The wire framing of a single-register read: one chip-select assertion
/// around the address transmitted with the read marker (bit 7 cleared), the
/// turn-around delay, the byte clocked in from the sampled levels, the hold
/// tier, and the read recovery delay after release.
pub open spec fn spec_read_reg_pin_ops(addr: u8, levels: Seq<bool>) -> Seq<PinOp> {
    seq![PinOp::CsLevel(false), PinOp::DelayUs(T_NCS_SCLK_US)] + spec_write_byte_ops(addr & 0x7f)
        + seq![PinOp::DelayUs(T_SRAD_US)] + spec_read_byte_ops(levels)
        + seq![PinOp::ShortDelay, PinOp::CsLevel(true), PinOp::DelayUs(T_SRX_US)]
}

/// The wire framing of a single-register write: one chip-select assertion
/// around exactly the two bytes [addr with the write marker (bit 7 set),
/// value] in that order, the write-settle delay before release, and the
/// write recovery delay after it.
pub open spec fn spec_write_reg_pin_ops(addr: u8, value: u8) -> Seq<PinOp> {
    seq![PinOp::CsLevel(false), PinOp::DelayUs(T_NCS_SCLK_US)] + spec_write_byte_ops(
        addr | SPI_WRITE,
    ) + spec_write_byte_ops(value) + seq![
        PinOp::DelayUs(T_SCLK_NCS_WR_US),
        PinOp::CsLevel(true),
        PinOp::DelayUs(T_SWX_US),
    ]
}

/// The wire sequence that streams the given bytes in, each byte's levels
/// followed by the short inter-byte tier.
pub open spec fn spec_burst_shift_ops(levelss: Seq<Seq<bool>>) -> Seq<PinOp>
    decreases levelss.len(),
{
    if levelss.len() == 0 {
        Seq::empty()
    } else {
        spec_burst_shift_ops(levelss.drop_last()) + spec_read_byte_ops(levelss.last())
            + seq![PinOp::SpiDelay]
    }
}

/// The wire framing of a burst read: one chip-select assertion around the
/// address transmitted with the read marker, the turn-around delay, the
/// streamed bytes, the hold tier, and the bus-exit delay after release.
pub open spec fn spec_read_burst_pin_ops(addr: u8, levelss: Seq<Seq<bool>>) -> Seq<PinOp> {
    seq![PinOp::CsLevel(false), PinOp::DelayUs(T_NCS_SCLK_US)] + spec_write_byte_ops(addr & 0x7f)
        + seq![PinOp::DelayUs(T_SRAD_US)] + spec_burst_shift_ops(levelss)
        + seq![PinOp::ShortDelay, PinOp::CsLevel(true), PinOp::DelayUs(T_BEXIT_US)]
}

/// The transaction that requests the sensor's internal SPI clock.
pub open spec fn spec_clk_on_ops() -> Seq<BusOp> {
    seq![BusOp::Write(PMW3610_SPI_CLK_ON_REQ, SPI_CLOCK_ON_REQ_ON)]
}

/// The transaction that releases the sensor's internal SPI clock.
pub open spec fn spec_clk_off_ops() -> Seq<BusOp> {
    seq![BusOp::Write(PMW3610_SPI_CLK_ON_REQ, SPI_CLOCK_ON_REQ_OFF)]
}

/// Whether a CPI value is inside the supported numeric range.
pub open spec fn spec_res_valid(cpi: u16) -> bool {
    RES_MIN <= cpi <= RES_MAX
}

/// The low register bits a CPI value selects: the value divided by the step,
/// truncated. A value that is not an exact multiple of the step is silently
/// rounded down to the multiple below it.
pub open spec fn spec_res_step_bits(cpi: u16) -> u8 {
    ((cpi as int) / (RES_STEP as int)) as u8
}

/// The read-modify-write result on the resolution-step register: the low
/// resolution bits replaced, the high (axis) bits kept.
pub open spec fn spec_res_step_value(old_val: u8, cpi: u16) -> u8 {
    (old_val & !RES_STEP_RES_MASK) | spec_res_step_bits(cpi)
}

/// The bus transactions of a successful resolution change, given the byte
/// `b` the resolution-step register read back: the value written keeps the
/// high (axis) bits of that very byte.
pub open spec fn spec_set_resolution_ops(b: u8, cpi: u16) -> Seq<BusOp> {
    seq![
        BusOp::Write(PMW3610_SPI_CLK_ON_REQ, SPI_CLOCK_ON_REQ_ON),
        BusOp::Write(PMW3610_SPI_PAGE0, SPI_PAGE0_1),
        BusOp::Read(PMW3610_RES_STEP, b),
        BusOp::Write(PMW3610_RES_STEP, spec_res_step_value(b, cpi)),
        BusOp::Write(PMW3610_SPI_PAGE1, SPI_PAGE1_0),
        BusOp::Write(PMW3610_SPI_CLK_ON_REQ, SPI_CLOCK_ON_REQ_OFF),
    ]
}

/// Resolution rounding: a CPI request that is not an exact multiple of the
/// step writes the same register bits as the multiple just below it.
pub proof fn lemma_resolution_rounding(cpi: u16)
    requires
        spec_res_valid(cpi),
    ensures
        spec_res_valid(((cpi / RES_STEP) * RES_STEP) as u16),
        spec_res_step_bits(cpi) == spec_res_step_bits(((cpi / RES_STEP) * RES_STEP) as u16),
{
    let q = (cpi as int) / (RES_STEP as int);
    assert((q * (RES_STEP as int) <= cpi as int) && ((q * (RES_STEP as int)) / (RES_STEP as int)
        == q)) by (nonlinear_arith)
        requires
            q == (cpi as int) / (RES_STEP as int) && RES_STEP == 200u16 && cpi >= 200u16,
    ;
}

/// The force-mode bits of the performance register for the requested mode.
pub open spec fn spec_fmode_bits(enable: bool) -> u8 {
    if enable {
        PERFORMANCE_FMODE_FORCE_AWAKE
    } else {
        PERFORMANCE_FMODE_NORMAL
    }
}

/// The read-modify-write result on the performance register: the force-mode
/// field replaced, the rest kept.
pub open spec fn spec_performance_value(old_val: u8, enable: bool) -> u8 {
    (old_val & !PERFORMANCE_FMODE_MASK) | spec_fmode_bits(enable)
}

/// The bus transactions of a force-awake change, given the byte `b` the
/// performance register read back: the value written keeps the low nibble of
/// that very byte.
pub open spec fn spec_force_awake_ops(b: u8, enable: bool) -> Seq<BusOp> {
    seq![
        BusOp::Read(PMW3610_PERFORMANCE, b),
        BusOp::Write(PMW3610_SPI_CLK_ON_REQ, SPI_CLOCK_ON_REQ_ON),
        BusOp::Write(PMW3610_PERFORMANCE, spec_performance_value(b, enable)),
        BusOp::Write(PMW3610_SPI_CLK_ON_REQ, SPI_CLOCK_ON_REQ_OFF),
    ]
}

/// Power-on reset and identity check: the first steps of every
/// initialization attempt, given the byte `id` the identity register
/// answered with.
pub open spec fn spec_reset_ops(id: u8) -> Seq<BusOp> {
    seq![
        BusOp::Write(PMW3610_POWER_UP_RESET, POWER_UP_RESET_VAL),
        BusOp::WaitMs(RESET_DELAY_MS),
        BusOp::Read(PMW3610_PROD_ID, id),
    ]
}

/// Calibration-register verification: clear the observation register, wait
/// the fixed settle, then read it back (under the bus clock), given the
/// byte `obs` it answered with.
pub open spec fn spec_observation_ops(obs: u8) -> Seq<BusOp> {
    seq![
        BusOp::Write(PMW3610_SPI_CLK_ON_REQ, SPI_CLOCK_ON_REQ_ON),
        BusOp::Write(PMW3610_OBSERVATION1, 0u8),
        BusOp::WaitMs(INIT_OBSERVATION_DELAY_MS),
        BusOp::Read(PMW3610_OBSERVATION1, obs),
    ]
}

/// Draining reads of the motion and delta registers, clearing stale motion,
/// given the (discarded) bytes they answered with.
pub open spec fn spec_motion_drain_ops(vals: Seq<u8>) -> Seq<BusOp>
    recommends
        vals.len() == 4,
{
    seq![
        BusOp::Read(PMW3610_MOTION, vals[0]),
        BusOp::Read(PMW3610_DELTA_X_L, vals[1]),
        BusOp::Read(PMW3610_DELTA_Y_L, vals[2]),
        BusOp::Read(PMW3610_DELTA_XY_H, vals[3]),
    ]
}

/// The baseline tuning writes: scan performance, run-mode downshift,
/// low-power rest rate and low-power downshift — fixed constants.
pub open spec fn spec_tuning_ops() -> Seq<BusOp> {
    seq![
        BusOp::Write(PMW3610_PERFORMANCE, PERFORMANCE_INIT),
        BusOp::Write(PMW3610_RUN_DOWNSHIFT, RUN_DOWNSHIFT_INIT),
        BusOp::Write(PMW3610_REST1_RATE, REST1_RATE_INIT),
        BusOp::Write(PMW3610_REST1_DOWNSHIFT, REST1_DOWNSHIFT_INIT),
    ]
}

/// The resolution-step register value after the axis-inversion bits are
/// folded in: each inversion bit set or cleared per its flag.
pub open spec fn spec_inversion_value(old_val: u8, cfg: Pmw3610Config) -> u8 {
    let v1 = if cfg.invert_x {
        old_val | (1u8 << RES_STEP_INV_X_BIT)
    } else {
        old_val & !(1u8 << RES_STEP_INV_X_BIT)
    };
    if cfg.invert_y {
        v1 | (1u8 << RES_STEP_INV_Y_BIT)
    } else {
        v1 & !(1u8 << RES_STEP_INV_Y_BIT)
    }
}

/// The axis-inversion transactions: nothing when no axis is inverted,
/// otherwise a page-switched read-modify-write of the resolution-step
/// register, given the byte `b` it read back: the value written changes the
/// two inversion bits of that very byte and nothing else.
pub open spec fn spec_inversion_ops(cfg: Pmw3610Config, b: u8) -> Seq<BusOp> {
    if cfg.invert_x || cfg.invert_y {
        seq![
            BusOp::Write(PMW3610_SPI_PAGE0, SPI_PAGE0_1),
            BusOp::Read(PMW3610_RES_STEP, b),
            BusOp::Write(PMW3610_RES_STEP, spec_inversion_value(b, cfg)),
            BusOp::Write(PMW3610_SPI_PAGE1, SPI_PAGE1_0),
        ]
    } else {
        Seq::empty()
    }
}

/// Every step of the configuration sequence up to and including the release
/// of the bus clock (before the independent resolution and force-awake
/// procedures), given the calibration byte `obs`, the drained motion bytes
/// `dvals`, and the byte `b1` the resolution-step register read back during
/// axis inversion (unused when no axis is inverted).
pub open spec fn spec_configure_base_ops(
    cfg: Pmw3610Config,
    obs: u8,
    dvals: Seq<u8>,
    b1: u8,
) -> Seq<BusOp> {
    spec_reset_ops(PRODUCT_ID_PMW3610) + spec_observation_ops(obs) + spec_motion_drain_ops(dvals)
        + spec_tuning_ops() + spec_inversion_ops(cfg, b1) + spec_clk_off_ops()
}

/// Every step of a successful configuration sequence, given the calibration
/// byte, the drained bytes, and the bytes read back by the three
/// read-modify-write reads: `b1` for axis inversion, `b2` for the resolution
/// step, `b3` for the performance register.
pub open spec fn spec_configure_ok_ops(
    cfg: Pmw3610Config,
    obs: u8,
    dvals: Seq<u8>,
    b1: u8,
    b2: u8,
    b3: u8,
) -> Seq<BusOp> {
    spec_configure_base_ops(cfg, obs, dvals, b1) + (if cfg.res_cpi > 0 {
        spec_set_resolution_ops(b2, cfg.res_cpi as u16)
    } else {
        Seq::empty()
    }) + spec_force_awake_ops(b3, cfg.force_awake)
}

/// The burst frame length is a function of the smart-mode setting alone:
/// the short frame normally, the extended frame with the shutter bytes in
/// smart mode.
pub open spec fn spec_burst_len(smart_mode: bool) -> usize {
    if smart_mode {
        BURST_DATA_LEN_SMART
    } else {
        BURST_DATA_LEN_NORMAL
    }
}

/// The transactions a smart-mode decision issues: nothing, or one toggle
/// write bracketed by the bus clock.
pub open spec fn spec_smart_write_ops(toggle: Option<u8>) -> Seq<BusOp> {
    match toggle {
        Some(v) => seq![
            BusOp::Write(PMW3610_SPI_CLK_ON_REQ, SPI_CLOCK_ON_REQ_ON),
            BusOp::Write(PMW3610_SMART_MODE, v),
            BusOp::Write(PMW3610_SPI_CLK_ON_REQ, SPI_CLOCK_ON_REQ_OFF),
        ],
        None => Seq::empty(),
    }
}

/// What one motion read does to the smart flag and the transcript, given
/// the burst frame `buf` the sensor answered with: the transcript grew by
/// the burst read carrying that frame, plus whatever toggle the smart-mode
/// rule asked for, and the smart flag followed that rule. A frame without
/// the motion bit, or a driver outside smart mode, leaves the flag alone.
pub open spec fn spec_read_motion_ops_post(
    cfg: Pmw3610Config,
    flag0: bool,
    flag1: bool,
    bus0: Seq<BusOp>,
    bus1: Seq<BusOp>,
    buf: Seq<u8>,
) -> bool {
    &&& buf.len() == spec_burst_len(cfg.smart_mode)
    &&& if cfg.smart_mode && spec_motion_bit(buf[0]) {
        let sh = spec_shutter(buf[5], buf[6]);
        &&& flag1 == spec_smart_flag_next(flag0, sh)
        &&& bus1 == bus0.push(BusOp::BurstRead(PMW3610_BURST_READ, buf))
            + spec_smart_write_ops(spec_smart_toggle(flag0, sh))
    } else {
        &&& flag1 == flag0
        &&& bus1 == bus0.push(BusOp::BurstRead(PMW3610_BURST_READ, buf))
    }
}

/// What the configuration sequence does to the transcript, case by case:
/// `Ok` appends the whole documented sequence with the identity byte pinned
/// to the product code and the calibration mask verified; a wrong identity
/// byte appends exactly the reset and the identity read that answered it,
/// and the error carries that byte; a failed calibration check appends
/// exactly the prefix through the observation read; a rejected configured
/// resolution appends everything up to the rejected procedure. The SPI error
/// is never produced.
pub open spec fn spec_configure_ops_post(
    cfg: Pmw3610Config,
    bus0: Seq<BusOp>,
    bus1: Seq<BusOp>,
    r: Result<(), Pmw3610Error>,
) -> bool {
    match r {
        Ok(()) => {
            &&& (cfg.res_cpi > 0 ==> spec_res_valid(cfg.res_cpi as u16))
            &&& exists|obs: u8, dvals: Seq<u8>, b1: u8, b2: u8, b3: u8|
                {
                    &&& obs & OBSERVATION1_INIT_MASK == OBSERVATION1_INIT_MASK
                    &&& dvals.len() == 4
                    &&& bus1 == bus0 + #[trigger] spec_configure_ok_ops(
                        cfg,
                        obs,
                        dvals,
                        b1,
                        b2,
                        b3,
                    )
                }
        },
        Err(Pmw3610Error::InvalidProductId(b)) => {
            &&& b != PRODUCT_ID_PMW3610
            &&& bus1 == bus0 + spec_reset_ops(b)
        },
        Err(Pmw3610Error::InitFailed) => exists|obs: u8|
            {
                &&& obs & OBSERVATION1_INIT_MASK != OBSERVATION1_INIT_MASK
                &&& bus1 == bus0 + spec_reset_ops(PRODUCT_ID_PMW3610) + #[trigger]
                spec_observation_ops(obs)
            },
        Err(Pmw3610Error::InvalidCpi) => {
            &&& cfg.res_cpi > 0
            &&& !spec_res_valid(cfg.res_cpi as u16)
            &&& exists|obs: u8, dvals: Seq<u8>, b1: u8|
                {
                    &&& obs & OBSERVATION1_INIT_MASK == OBSERVATION1_INIT_MASK
                    &&& dvals.len() == 4
                    &&& bus1 == bus0 + #[trigger] spec_configure_base_ops(cfg, obs, dvals, b1)
                }
        },
        Err(Pmw3610Error::Spi) => false,
    }
}

/// PMW3610 driver using half-duplex bit-banged SPI.
///
/// The sensor uses a bidirectional SDIO line for SPI communication; the
/// driver bit-bangs the protocol over plain pin capabilities.
///
/// # Type Parameters
/// - `SCK`: SPI clock pin (output)
/// - `SDIO`: bidirectional data pin
/// - `CS`: chip select pin (active low)
/// - `MOTION`: optional motion interrupt pin (active low)
/// - `D`: calibrated delay source
pub struct Pmw3610<SCK, SDIO, CS, MOTION, D> where
    SCK: OutputPin,
    SDIO: BidirectionalPin,
    CS: OutputPin,
    MOTION: InputPin,
    D: DelayProvider,
 {
    sck: SCK,
    sdio: SDIO,
    cs: CS,
    motion_gpio: Option<MOTION>,
    delay: D,
    config: Pmw3610Config,
    smart_flag: bool,
    bus: Ghost<Seq<BusOp>>,
    pins: Ghost<Seq<PinOp>>,
}

impl<SCK, SDIO, CS, MOTION, D> Pmw3610<SCK, SDIO, CS, MOTION, D> where
    SCK: OutputPin,
    SDIO: BidirectionalPin,
    CS: OutputPin,
    MOTION: InputPin,
    D: DelayProvider,
 {
    /// The configuration the driver was constructed with.
    pub closed spec fn spec_config(&self) -> Pmw3610Config {
        self.config
    }

    /// The persistent smart-mode flag, mutated only by the motion read when
    /// a shutter threshold crossing is observed.
    pub closed spec fn spec_smart_flag(&self) -> bool {
        self.smart_flag
    }

    /// The ghost transcript of observable steps issued so far: register
    /// transactions, millisecond waits, motion-gate samples.
    pub closed spec fn bus_ops(&self) -> Seq<BusOp> {
        self.bus@
    }

    /// The ghost transcript of the wire itself: every command given to the
    /// clock, chip-select and data lines, every sample taken, and every
    /// delay handed to the delay capability.
    pub closed spec fn pin_ops(&self) -> Seq<PinOp> {
        self.pins@
    }

    /// Whether a motion-pending line is wired.
    pub closed spec fn has_motion_pin(&self) -> bool {
        self.motion_gpio is Some
    }

    /// The parts of the driver state the protocol never changes behind the
    /// caller's back: configuration, smart-mode flag, pin wiring.
    pub open spec fn same_driver_state(pre: Self, post: Self) -> bool {
        &&& post.spec_config() == pre.spec_config()
        &&& post.spec_smart_flag() == pre.spec_smart_flag()
        &&& post.has_motion_pin() == pre.has_motion_pin()
    }

    /// Create a new PMW3610 driver instance. No bus traffic happens until
    /// the first initialization or read.
    pub fn new(
        sck: SCK,
        sdio: SDIO,
        cs: CS,
        motion_gpio: Option<MOTION>,
        delay: D,
        config: Pmw3610Config,
    ) -> (s: Self)
        ensures
            s.spec_config() == config,
            s.spec_smart_flag() == false,
            s.bus_ops() == Seq::<BusOp>::empty(),
            s.pin_ops() == Seq::<PinOp>::empty(),
            s.has_motion_pin() == (motion_gpio is Some),
    {
        Self {
            sck,
            sdio,
            cs,
            motion_gpio,
            delay,
            config,
            smart_flag: false,
            bus: Ghost(Seq::empty()),
            pins: Ghost(Seq::empty()),
        }
    }

    /// Check if motion is pending: the motion line is active low, and a
    /// driver wired without one always reports pending. The sample taken is
    /// recorded in the transcript.
    pub fn motion_pending(&mut self) -> (pending: bool)
        ensures
            Self::same_driver_state(*old(self), *final(self)),
            final(self).bus_ops() == old(self).bus_ops().push(BusOp::MotionGate(pending)),
            !old(self).has_motion_pin() ==> pending,
    {
        let pending = match &mut self.motion_gpio {
            Some(gpio) => gpio.is_low(),
            None => true,
        };
        self.bus = Ghost(self.bus@.push(BusOp::MotionGate(pending)));
        pending
    }

    /// Wait the given number of milliseconds on the driver's delay source,
    /// touching nothing else on the bus. The wait is recorded in the
    /// transcript; the protocol's settles and the retry backoff go through
    /// here.
    pub fn wait_ms(&mut self, ms: u32)
        ensures
            Self::same_driver_state(*old(self), *final(self)),
            final(self).bus_ops() == old(self).bus_ops().push(BusOp::WaitMs(ms)),
            final(self).pin_ops() == old(self).pin_ops().push(PinOp::DelayMs(ms)),
    {
        self.delay.delay_ms(ms);
        self.bus = Ghost(self.bus@.push(BusOp::WaitMs(ms)));
        self.pins = Ghost(self.pins@.push(PinOp::DelayMs(ms)));
    }

    /// One short busy-wait tier, recorded on the wire transcript.
    fn spi_delay(&mut self)
        ensures
            Self::same_driver_state(*old(self), *final(self)),
            final(self).bus_ops() == old(self).bus_ops(),
            final(self).pin_ops() == old(self).pin_ops().push(PinOp::SpiDelay),
    {
        self.delay.spi_delay();
        self.pins = Ghost(self.pins@.push(PinOp::SpiDelay));
    }

    /// One longer busy-wait tier, recorded on the wire transcript.
    fn short_delay(&mut self)
        ensures
            Self::same_driver_state(*old(self), *final(self)),
            final(self).bus_ops() == old(self).bus_ops(),
            final(self).pin_ops() == old(self).pin_ops().push(PinOp::ShortDelay),
    {
        self.delay.short_delay();
        self.pins = Ghost(self.pins@.push(PinOp::ShortDelay));
    }

    /// A microsecond-scale wait, recorded on the wire transcript.
    fn delay_us(&mut self, us: u32)
        ensures
            Self::same_driver_state(*old(self), *final(self)),
            final(self).bus_ops() == old(self).bus_ops(),
            final(self).pin_ops() == old(self).pin_ops().push(PinOp::DelayUs(us)),
    {
        self.delay.delay_us(us);
        self.pins = Ghost(self.pins@.push(PinOp::DelayUs(us)));
    }

    /// Drive the chip-select line, recording the command.
    fn cs_drive(&mut self, level: bool)
        ensures
            Self::same_driver_state(*old(self), *final(self)),
            final(self).bus_ops() == old(self).bus_ops(),
            final(self).pin_ops() == old(self).pin_ops().push(PinOp::CsLevel(level)),
    {
        if level {
            self.cs.set_high();
        } else {
            self.cs.set_low();
        }
        self.pins = Ghost(self.pins@.push(PinOp::CsLevel(level)));
    }

    /// Drive the clock line, recording the command.
    fn sck_drive(&mut self, level: bool)
        ensures
            Self::same_driver_state(*old(self), *final(self)),
            final(self).bus_ops() == old(self).bus_ops(),
            final(self).pin_ops() == old(self).pin_ops().push(PinOp::SckLevel(level)),
    {
        if level {
            self.sck.set_high();
        } else {
            self.sck.set_low();
        }
        self.pins = Ghost(self.pins@.push(PinOp::SckLevel(level)));
    }

    /// Switch the data line's direction, recording the command.
    fn sdio_direction(&mut self, output: bool)
        ensures
            Self::same_driver_state(*old(self), *final(self)),
            final(self).bus_ops() == old(self).bus_ops(),
            final(self).pin_ops() == old(self).pin_ops().push(
                if output {
                    PinOp::SdioOutput
                } else {
                    PinOp::SdioInput
                },
            ),
    {
        if output {
            self.sdio.set_as_output();
            self.pins = Ghost(self.pins@.push(PinOp::SdioOutput));
        } else {
            self.sdio.set_as_input();
            self.pins = Ghost(self.pins@.push(PinOp::SdioInput));
        }
    }

    /// Drive the data line, recording the command.
    fn sdio_drive(&mut self, level: bool)
        ensures
            Self::same_driver_state(*old(self), *final(self)),
            final(self).bus_ops() == old(self).bus_ops(),
            final(self).pin_ops() == old(self).pin_ops().push(PinOp::SdioLevel(level)),
    {
        if level {
            self.sdio.set_high();
        } else {
            self.sdio.set_low();
        }
        self.pins = Ghost(self.pins@.push(PinOp::SdioLevel(level)));
    }

    /// Sample the data line, recording the level seen.
    fn sdio_sample(&mut self) -> (level: bool)
        ensures
            Self::same_driver_state(*old(self), *final(self)),
            final(self).bus_ops() == old(self).bus_ops(),
            final(self).pin_ops() == old(self).pin_ops().push(PinOp::SdioSample(level)),
    {
        let level = self.sdio.is_high();
        self.pins = Ghost(self.pins@.push(PinOp::SdioSample(level)));
        level
    }

    /// Shift one byte out over the bidirectional line: the line is switched
    /// to output, then the eight bits of `byte` are driven MSB first, each
    /// held around a clock toggle. Electrical faults are invisible at this
    /// layer by construction; correctness relies on protocol-level checks
    /// above it.
    fn write_byte(&mut self, byte: u8)
        ensures
            Self::same_driver_state(*old(self), *final(self)),
            final(self).bus_ops() == old(self).bus_ops(),
            final(self).pin_ops() == old(self).pin_ops() + spec_write_byte_ops(byte),
    {
        self.sdio_direction(true);

        let mut i: u8 = 8;
        while i > 0
            invariant
                i <= 8,
                Self::same_driver_state(*old(self), *self),
                self.bus_ops() == old(self).bus_ops(),
                self.pin_ops() == old(self).pin_ops().push(PinOp::SdioOutput)
                    + spec_shift_out_ops(byte, i),
            decreases i,
        {
            i = i - 1;
            self.sdio_drive((byte >> i) & 1 == 1);
            self.spi_delay();

            self.sck_drive(false);
            self.spi_delay();

            self.sck_drive(true);
            self.spi_delay();
            proof {
                assert(self.pins@ =~= old(self).pins@.push(PinOp::SdioOutput)
                    + spec_shift_out_ops(byte, i));
            }
        }
        proof {
            assert(self.pins@ =~= old(self).pins@ + spec_write_byte_ops(byte));
        }
    }

    /// Shift one byte in over the bidirectional line: the line is switched
    /// to input, then eight levels are sampled, one after each clock toggle,
    /// and assembled MSB first into the result.
    fn read_byte(&mut self) -> (byte: u8)
        ensures
            Self::same_driver_state(*old(self), *final(self)),
            final(self).bus_ops() == old(self).bus_ops(),
            exists|levels: Seq<bool>|
                {
                    &&& #[trigger] spec_wire_byte(levels, byte)
                    &&& final(self).pin_ops() == old(self).pin_ops() + spec_read_byte_ops(levels)
                },
    {
        self.sdio_direction(false);

        proof {
            assert(forall|j: u8| j < 8 ==> !spec_bit(0u8, j)) by (bit_vector);
        }
        let ghost mut levels: Seq<bool> = Seq::empty();
        let mut byte: u8 = 0;
        let mut i: u8 = 8;
        while i > 0
            invariant
                i <= 8,
                levels.len() + i == 8,
                Self::same_driver_state(*old(self), *self),
                self.bus_ops() == old(self).bus_ops(),
                self.pin_ops() == old(self).pin_ops().push(PinOp::SdioInput)
                    + spec_read_shift_ops(levels),
                forall|k: int|
                    0 <= k < levels.len() ==> spec_bit(byte, (7 - k) as u8) == levels[k],
                forall|j: u8| j < i ==> !spec_bit(byte, j),
            decreases i,
        {
            i = i - 1;
            self.sck_drive(false);
            self.spi_delay();

            self.sck_drive(true);
            self.spi_delay();

            let sampled = self.sdio_sample();
            let ghost byte_before = byte;
            if sampled {
                byte = byte | (1u8 << i);
            }
            proof {
                let prev_levels = levels;
                levels = levels.push(sampled);
                assert(levels.drop_last() =~= prev_levels);
                assert(spec_read_shift_ops(levels) == spec_read_shift_ops(prev_levels)
                    + spec_bit_read_ops(sampled));
                assert(self.pins@ =~= old(self).pins@.push(PinOp::SdioInput)
                    + spec_read_shift_ops(levels));
                if sampled {
                    assert forall|j: u8| j < 8 implies spec_bit(byte, j) == (j == i || spec_bit(
                        byte_before,
                        j,
                    )) by {
                        lemma_or_bit(byte_before, i, j);
                    }
                }
            }
        }
        proof {
            assert(spec_wire_byte(levels, byte));
            assert(self.pins@ =~= old(self).pins@ + spec_read_byte_ops(levels));
        }
        byte
    }

    /// Read a single byte from a register: assert chip select, send the
    /// address with the read marker, wait the turn-around delay, clock the
    /// byte in, release chip select. What the sensor answers is free; the
    /// returned byte is the MSB-first assembly of the levels sampled, and
    /// both transcripts record the transaction.
    fn read_reg(&mut self, addr: u8) -> (r: Result<u8, Pmw3610Error>)
        ensures
            r is Ok,
            Self::same_driver_state(*old(self), *final(self)),
            r matches Ok(v) && final(self).bus_ops() == old(self).bus_ops().push(
                BusOp::Read(addr, v),
            ),
            exists|levels: Seq<bool>|
                {
                    &&& #[trigger] spec_wire_byte(levels, r->Ok_0)
                    &&& final(self).pin_ops() == old(self).pin_ops() + spec_read_reg_pin_ops(
                        addr,
                        levels,
                    )
                },
    {
        self.cs_drive(false);
        self.delay_us(T_NCS_SCLK_US);

        // Send address with read bit (bit 7 = 0).
        self.write_byte(addr & 0x7f);

        self.delay_us(T_SRAD_US);

        let ghost pins_before = self.pins@;
        let value = self.read_byte();
        let ghost wire_levels = choose|levels: Seq<bool>|
            #[trigger] spec_wire_byte(levels, value) && self.pins@ == pins_before
                + spec_read_byte_ops(levels);

        self.short_delay();
        self.cs_drive(true);

        self.delay_us(T_SRX_US);

        self.bus = Ghost(self.bus@.push(BusOp::Read(addr, value)));
        proof {
            assert(self.pins@ =~= old(self).pins@ + spec_read_reg_pin_ops(addr, wire_levels));
        }
        Ok(value)
    }

    /// Read multiple bytes using burst read: the same framing as a register
    /// read, but streaming `len` bytes with a short inter-byte delay and a
    /// longer bus-exit delay after release.
    fn read_burst(&mut self, addr: u8, len: usize) -> (r: Result<Vec<u8>, Pmw3610Error>)
        ensures
            r matches Ok(data) && data@.len() == len,
            Self::same_driver_state(*old(self), *final(self)),
            r matches Ok(data) && final(self).bus_ops() == old(self).bus_ops().push(
                BusOp::BurstRead(addr, data@),
            ),
            exists|levelss: Seq<Seq<bool>>|
                {
                    &&& levelss.len() == len
                    &&& forall|i: int|
                        0 <= i < len ==> #[trigger] spec_wire_byte(levelss[i], r->Ok_0@[i])
                    &&& final(self).pin_ops() == old(self).pin_ops() + spec_read_burst_pin_ops(
                        addr,
                        levelss,
                    )
                },
    {
        self.cs_drive(false);
        self.delay_us(T_NCS_SCLK_US);

        // Send address with read bit (bit 7 = 0).
        self.write_byte(addr & 0x7f);

        self.delay_us(T_SRAD_US);

        let ghost stream_start = self.pins@;
        let ghost mut levelss: Seq<Seq<bool>> = Seq::empty();
        let mut data: Vec<u8> = Vec::new();
        while data.len() < len
            invariant
                data@.len() <= len,
                levelss.len() == data@.len(),
                Self::same_driver_state(*old(self), *self),
                self.bus_ops() == old(self).bus_ops(),
                self.pin_ops() == stream_start + spec_burst_shift_ops(levelss),
                forall|i: int|
                    0 <= i < data@.len() ==> #[trigger] spec_wire_byte(levelss[i], data@[i]),
            decreases len - data@.len(),
        {
            let ghost pins_before = self.pins@;
            let b = self.read_byte();
            let ghost byte_levels = choose|levels: Seq<bool>|
                #[trigger] spec_wire_byte(levels, b) && self.pins@ == pins_before
                    + spec_read_byte_ops(levels);
            data.push(b);
            self.spi_delay();
            proof {
                let prev_levelss = levelss;
                levelss = levelss.push(byte_levels);
                assert(levelss.drop_last() =~= prev_levelss);
                assert(spec_burst_shift_ops(levelss) == spec_burst_shift_ops(prev_levelss)
                    + spec_read_byte_ops(byte_levels) + seq![PinOp::SpiDelay]);
                assert(self.pins@ =~= stream_start + spec_burst_shift_ops(levelss));
            }
        }

        self.short_delay();
        self.cs_drive(true);

        self.delay_us(T_BEXIT_US);

        self.bus = Ghost(self.bus@.push(BusOp::BurstRead(addr, data@)));
        proof {
            assert(self.pins@ =~= old(self).pins@ + spec_read_burst_pin_ops(addr, levelss));
        }
        Ok(data)
    }

    /// Write a single byte to a register: assert chip select, send the
    /// address with the write marker, send the value, wait the write-settle
    /// delay, release chip select.
    fn write_reg(&mut self, addr: u8, value: u8) -> (r: Result<(), Pmw3610Error>)
        ensures
            r is Ok,
            Self::same_driver_state(*old(self), *final(self)),
            final(self).bus_ops() == old(self).bus_ops().push(BusOp::Write(addr, value)),
            final(self).pin_ops() == old(self).pin_ops() + spec_write_reg_pin_ops(addr, value),
    {
        self.cs_drive(false);
        self.delay_us(T_NCS_SCLK_US);

        // Send address with write bit (bit 7 = 1).
        self.write_byte(addr | SPI_WRITE);

        self.write_byte(value);

        self.delay_us(T_SCLK_NCS_WR_US);
        self.cs_drive(true);

        self.delay_us(T_SWX_US);

        self.bus = Ghost(self.bus@.push(BusOp::Write(addr, value)));
        proof {
            assert(self.pins@ =~= old(self).pins@ + spec_write_reg_pin_ops(addr, value));
        }
        Ok(())
    }

    /// Request the sensor's internal SPI clock; callers must do this before
    /// privileged writes that touch paged registers, and release afterwards.
    fn spi_clk_on(&mut self) -> (r: Result<(), Pmw3610Error>)
        ensures
            r is Ok,
            Self::same_driver_state(*old(self), *final(self)),
            final(self).bus_ops() == old(self).bus_ops() + spec_clk_on_ops(),
            final(self).pin_ops() == old(self).pin_ops() + spec_write_reg_pin_ops(
                PMW3610_SPI_CLK_ON_REQ,
                SPI_CLOCK_ON_REQ_ON,
            ) + seq![PinOp::DelayUs(CLOCK_ON_DELAY_US)],
    {
        let res = self.write_reg(PMW3610_SPI_CLK_ON_REQ, SPI_CLOCK_ON_REQ_ON);
        self.delay_us(CLOCK_ON_DELAY_US);
        proof {
            assert(self.bus@ =~= old(self).bus@ + spec_clk_on_ops());
            assert(self.pins@ =~= old(self).pins@ + spec_write_reg_pin_ops(
                PMW3610_SPI_CLK_ON_REQ,
                SPI_CLOCK_ON_REQ_ON,
            ) + seq![PinOp::DelayUs(CLOCK_ON_DELAY_US)]);
        }
        res
    }

    /// Release the sensor's internal SPI clock.
    fn spi_clk_off(&mut self) -> (r: Result<(), Pmw3610Error>)
        ensures
            r is Ok,
            Self::same_driver_state(*old(self), *final(self)),
            final(self).bus_ops() == old(self).bus_ops() + spec_clk_off_ops(),
            final(self).pin_ops() == old(self).pin_ops() + spec_write_reg_pin_ops(
                PMW3610_SPI_CLK_ON_REQ,
                SPI_CLOCK_ON_REQ_OFF,
            ),
    {
        let res = self.write_reg(PMW3610_SPI_CLK_ON_REQ, SPI_CLOCK_ON_REQ_OFF);
        proof {
            assert(self.bus@ =~= old(self).bus@ + spec_clk_off_ops());
        }
        res
    }

    /// Set sensor resolution in CPI (200-3200, step 200).
    ///
    /// A value outside the supported range is rejected with `InvalidCpi`
    /// and causes no bus traffic. A value inside it is written as its step
    /// quotient — values that are not an exact multiple of the step are
    /// silently rounded down — by a page-switched read-modify-write of the
    /// resolution-step register under the bus clock.
    pub fn set_resolution(&mut self, cpi: u16) -> (r: Result<(), Pmw3610Error>)
        ensures
            Self::same_driver_state(*old(self), *final(self)),
            !spec_res_valid(cpi) ==> r == Err::<(), Pmw3610Error>(Pmw3610Error::InvalidCpi)
                && final(self).bus_ops() == old(self).bus_ops(),
            spec_res_valid(cpi) ==> r is Ok && exists|b: u8|
                final(self).bus_ops() == old(self).bus_ops() + #[trigger] spec_set_resolution_ops(
                    b,
                    cpi,
                ),
    {
        if cpi < RES_MIN || cpi > RES_MAX {
            return Err(Pmw3610Error::InvalidCpi);
        }
        match self.spi_clk_on() {
            Ok(()) => (),
            Err(e) => {
                return Err(e);
            },
        }
        match self.write_reg(PMW3610_SPI_PAGE0, SPI_PAGE0_1) {
            Ok(()) => (),
            Err(e) => {
                return Err(e);
            },
        }
        let mut val = match self.read_reg(PMW3610_RES_STEP) {
            Ok(v) => v,
            Err(e) => {
                return Err(e);
            },
        };
        let ghost b = val;
        val = val & !RES_STEP_RES_MASK;
        val = val | (cpi / RES_STEP) as u8;

        match self.write_reg(PMW3610_RES_STEP, val) {
            Ok(()) => (),
            Err(e) => {
                return Err(e);
            },
        }
        match self.write_reg(PMW3610_SPI_PAGE1, SPI_PAGE1_0) {
            Ok(()) => (),
            Err(e) => {
                return Err(e);
            },
        }
        match self.spi_clk_off() {
            Ok(()) => (),
            Err(e) => {
                return Err(e);
            },
        }
        proof {
            assert(val == spec_res_step_value(b, cpi));
            assert(self.bus@ =~= old(self).bus@ + spec_set_resolution_ops(b, cpi));
        }
        Ok(())
    }

    /// Set force awake mode: a read-modify-write of the performance
    /// register's force-mode field, the write under the bus clock.
    pub fn force_awake(&mut self, enable: bool) -> (r: Result<(), Pmw3610Error>)
        ensures
            Self::same_driver_state(*old(self), *final(self)),
            r is Ok,
            exists|b: u8|
                final(self).bus_ops() == old(self).bus_ops() + #[trigger] spec_force_awake_ops(
                    b,
                    enable,
                ),
    {
        let mut val = match self.read_reg(PMW3610_PERFORMANCE) {
            Ok(v) => v,
            Err(e) => {
                return Err(e);
            },
        };
        let ghost b = val;
        val = val & !PERFORMANCE_FMODE_MASK;
        if enable {
            val = val | PERFORMANCE_FMODE_FORCE_AWAKE;
        } else {
            val = val | PERFORMANCE_FMODE_NORMAL;
        }

        match self.spi_clk_on() {
            Ok(()) => (),
            Err(e) => {
                return Err(e);
            },
        }
        match self.write_reg(PMW3610_PERFORMANCE, val) {
            Ok(()) => (),
            Err(e) => {
                return Err(e);
            },
        }
        match self.spi_clk_off() {
            Ok(()) => (),
            Err(e) => {
                return Err(e);
            },
        }
        proof {
            assert(val == spec_performance_value(b, enable));
            assert(self.bus@ =~= old(self).bus@ + spec_force_awake_ops(b, enable));
        }
        Ok(())
    }

    /// Configure and initialize the sensor: power-up reset, identity
    /// verification, calibration-register verification, draining stale
    /// motion, baseline tuning writes, optional axis inversion, then the
    /// independent resolution and force-awake procedures.
    ///
    /// A wrong identity byte or a failed calibration check aborts the
    /// sequence immediately with the corresponding error; the later steps
    /// are not attempted.
    #[verifier::rlimit(100)]
    fn configure(&mut self) -> (r: Result<(), Pmw3610Error>)
        ensures
            Self::same_driver_state(*old(self), *final(self)),
            spec_configure_ops_post(
                old(self).spec_config(),
                old(self).bus_ops(),
                final(self).bus_ops(),
                r,
            ),
    {
        // Power-up reset.
        match self.write_reg(PMW3610_POWER_UP_RESET, POWER_UP_RESET_VAL) {
            Ok(()) => (),
            Err(e) => {
                return Err(e);
            },
        }
        self.wait_ms(RESET_DELAY_MS);

        // Verify product ID.
        let id = match self.read_reg(PMW3610_PROD_ID) {
            Ok(v) => v,
            Err(e) => {
                return Err(e);
            },
        };
        if id != PRODUCT_ID_PMW3610 {
            proof {
                assert(self.bus@ =~= old(self).bus@ + spec_reset_ops(id));
            }
            return Err(Pmw3610Error::InvalidProductId(id));
        }

        // Power-up init sequence.
        match self.spi_clk_on() {
            Ok(()) => (),
            Err(e) => {
                return Err(e);
            },
        }

        match self.write_reg(PMW3610_OBSERVATION1, 0) {
            Ok(()) => (),
            Err(e) => {
                return Err(e);
            },
        }
        self.wait_ms(INIT_OBSERVATION_DELAY_MS);

        let obs = match self.read_reg(PMW3610_OBSERVATION1) {
            Ok(v) => v,
            Err(e) => {
                return Err(e);
            },
        };
        if (obs & OBSERVATION1_INIT_MASK) != OBSERVATION1_INIT_MASK {
            proof {
                assert(self.bus@ =~= old(self).bus@ + spec_reset_ops(PRODUCT_ID_PMW3610)
                    + spec_observation_ops(obs));
            }
            return Err(Pmw3610Error::InitFailed);
        }

        // Read motion registers to clear them, keeping the discarded bytes
        // for the transcript.
        let ghost bus_before_drain = self.bus@;
        let ghost mut drain_vals: Seq<u8> = Seq::empty();
        let mut reg: u8 = PMW3610_MOTION;
        while reg <= PMW3610_DELTA_XY_H
            invariant
                PMW3610_MOTION <= reg <= PMW3610_DELTA_XY_H + 1,
                Self::same_driver_state(*old(self), *self),
                drain_vals.len() == (reg - PMW3610_MOTION) as nat,
                self.bus_ops() == bus_before_drain + Seq::new(
                    drain_vals.len(),
                    |k: int| BusOp::Read((PMW3610_MOTION + k) as u8, drain_vals[k]),
                ),
            decreases PMW3610_DELTA_XY_H + 1 - reg,
        {
            let v = match self.read_reg(reg) {
                Ok(v) => v,
                Err(e) => {
                    return Err(e);
                },
            };
            proof {
                drain_vals = drain_vals.push(v);
                assert(self.bus@ =~= bus_before_drain + Seq::new(
                    drain_vals.len(),
                    |k: int| BusOp::Read((PMW3610_MOTION + k) as u8, drain_vals[k]),
                ));
            }
            reg = reg + 1;
        }
        proof {
            assert(self.bus@ =~= bus_before_drain + spec_motion_drain_ops(drain_vals));
        }

        match self.write_reg(PMW3610_PERFORMANCE, PERFORMANCE_INIT) {
            Ok(()) => (),
            Err(e) => {
                return Err(e);
            },
        }
        match self.write_reg(PMW3610_RUN_DOWNSHIFT, RUN_DOWNSHIFT_INIT) {
            Ok(()) => (),
            Err(e) => {
                return Err(e);
            },
        }
        match self.write_reg(PMW3610_REST1_RATE, REST1_RATE_INIT) {
            Ok(()) => (),
            Err(e) => {
                return Err(e);
            },
        }
        match self.write_reg(PMW3610_REST1_DOWNSHIFT, REST1_DOWNSHIFT_INIT) {
            Ok(()) => (),
            Err(e) => {
                return Err(e);
            },
        }

        // Configuration: axis inversion.
        let ghost b1: u8 = 0u8;
        if self.config.invert_x || self.config.invert_y {
            match self.write_reg(PMW3610_SPI_PAGE0, SPI_PAGE0_1) {
                Ok(()) => (),
                Err(e) => {
                    return Err(e);
                },
            }

            let mut val = match self.read_reg(PMW3610_RES_STEP) {
                Ok(v) => v,
                Err(e) => {
                    return Err(e);
                },
            };
            proof {
                b1 = val;
            }

            if self.config.invert_x {
                val = val | (1u8 << RES_STEP_INV_X_BIT);
            } else {
                val = val & !(1u8 << RES_STEP_INV_X_BIT);
            }

            if self.config.invert_y {
                val = val | (1u8 << RES_STEP_INV_Y_BIT);
            } else {
                val = val & !(1u8 << RES_STEP_INV_Y_BIT);
            }

            match self.write_reg(PMW3610_RES_STEP, val) {
                Ok(()) => (),
                Err(e) => {
                    return Err(e);
                },
            }
            match self.write_reg(PMW3610_SPI_PAGE1, SPI_PAGE1_0) {
                Ok(()) => (),
                Err(e) => {
                    return Err(e);
                },
            }
            proof {
                assert(val == spec_inversion_value(b1, self.config));
            }
        }

        match self.spi_clk_off() {
            Ok(()) => (),
            Err(e) => {
                return Err(e);
            },
        }
        proof {
            assert(self.bus@ =~= old(self).bus@ + spec_configure_base_ops(
                self.config,
                obs,
                drain_vals,
                b1,
            ));
        }

        // The remaining procedures bracket the bus clock independently.
        let ghost bus_base = self.bus@;
        let ghost b2: u8 = 0u8;
        if self.config.res_cpi > 0 {
            let cpi = self.config.res_cpi as u16;
            match self.set_resolution(cpi) {
                Ok(()) => (),
                Err(e) => {
                    proof {
                        assert(self.bus@ == old(self).bus@ + spec_configure_base_ops(
                            self.config,
                            obs,
                            drain_vals,
                            b1,
                        ));
                    }
                    return Err(e);
                },
            }
            proof {
                b2 = choose|b: u8| self.bus@ == bus_base + spec_set_resolution_ops(b, cpi);
            }
        }

        let enable = self.config.force_awake;
        match self.force_awake(enable) {
            Ok(()) => (),
            Err(e) => {
                return Err(e);
            },
        }
        proof {
            let b3 = choose|b: u8|
                self.bus@ == (bus_base + (if self.config.res_cpi > 0 {
                    spec_set_resolution_ops(b2, self.config.res_cpi as u16)
                } else {
                    Seq::<BusOp>::empty()
                })) + spec_force_awake_ops(b, enable);
            if self.config.res_cpi <= 0 {
                assert(bus_base + Seq::<BusOp>::empty() =~= bus_base);
            }
            assert(self.bus@ =~= old(self).bus@ + spec_configure_ok_ops(
                self.config,
                obs,
                drain_vals,
                b1,
                b2,
                b3,
            ));
        }
        Ok(())
    }

    /// Initialize the sensor: set the idle pin states, wait the power-up
    /// millisecond, then run the configuration sequence. One call is one
    /// initialization attempt: the appended transcript is that wait followed
    /// by exactly the configuration sequence's transactions for the outcome.
    pub fn init(&mut self) -> (r: Result<(), Pmw3610Error>)
        ensures
            Self::same_driver_state(*old(self), *final(self)),
            spec_configure_ops_post(
                old(self).spec_config(),
                old(self).bus_ops().push(BusOp::WaitMs(1)),
                final(self).bus_ops(),
                r,
            ),
    {
        // Set initial pin states.
        self.cs_drive(true);
        self.sck_drive(true);
        self.wait_ms(1);

        let ghost mid = *self;
        let r = self.configure();
        proof {
            assert(mid.spec_config() == old(self).spec_config());
            assert(mid.bus_ops() == old(self).bus_ops().push(BusOp::WaitMs(1)));
        }
        r
    }

    /// Read motion data from the sensor: one burst read of the configured
    /// frame length, decoded as `spec_decode_motion`; in smart mode a
    /// motion-carrying frame's shutter value drives the hysteresis rule,
    /// issuing at most one mode-toggle write per call.
    pub fn read_motion(&mut self) -> (r: Result<MotionData, Pmw3610Error>)
        ensures
            final(self).spec_config() == old(self).spec_config(),
            final(self).has_motion_pin() == old(self).has_motion_pin(),
            r is Ok,
            exists|buf: Seq<u8>|
                {
                    &&& #[trigger] spec_read_motion_ops_post(
                        old(self).spec_config(),
                        old(self).spec_smart_flag(),
                        final(self).spec_smart_flag(),
                        old(self).bus_ops(),
                        final(self).bus_ops(),
                        buf,
                    )
                    &&& r == Ok::<MotionData, Pmw3610Error>(
                        spec_decode_motion(buf, old(self).spec_config().swap_xy),
                    )
                },
            !old(self).spec_config().smart_mode ==> final(self).spec_smart_flag() == old(
                self,
            ).spec_smart_flag(),
    {
        let burst_data_len = if self.config.smart_mode {
            BURST_DATA_LEN_SMART
        } else {
            BURST_DATA_LEN_NORMAL
        };

        let burst_data = match self.read_burst(PMW3610_BURST_READ, burst_data_len) {
            Ok(d) => d,
            Err(e) => {
                return Err(e);
            },
        };
        let ghost buf = burst_data@;

        if (burst_data[BURST_MOTION] & MOTION_STATUS_MOTION) == 0x00 {
            let zero = MotionData::default();
            proof {
                assert(spec_read_motion_ops_post(
                    old(self).spec_config(),
                    old(self).spec_smart_flag(),
                    self.spec_smart_flag(),
                    old(self).bus_ops(),
                    self.bus_ops(),
                    buf,
                ));
            }
            return Ok(zero);
        }
        let m = decode_motion(burst_data.as_slice(), self.config.swap_xy);

        // Smart mode handling: the shutter value drives an adaptive
        // sensitivity toggle with hysteresis around the threshold.
        if self.config.smart_mode {
            let shutter_val = shutter_value(
                burst_data[BURST_SHUTTER_HI],
                burst_data[BURST_SHUTTER_LO],
            );

            if self.smart_flag && shutter_val < SHUTTER_SMART_THRESHOLD {
                match self.spi_clk_on() {
                    Ok(()) => (),
                    Err(e) => {
                        return Err(e);
                    },
                }
                match self.write_reg(PMW3610_SMART_MODE, SMART_MODE_ENABLE) {
                    Ok(()) => (),
                    Err(e) => {
                        return Err(e);
                    },
                }
                match self.spi_clk_off() {
                    Ok(()) => (),
                    Err(e) => {
                        return Err(e);
                    },
                }
                self.smart_flag = false;
            } else if !self.smart_flag && shutter_val > SHUTTER_SMART_THRESHOLD {
                match self.spi_clk_on() {
                    Ok(()) => (),
                    Err(e) => {
                        return Err(e);
                    },
                }
                match self.write_reg(PMW3610_SMART_MODE, SMART_MODE_DISABLE) {
                    Ok(()) => (),
                    Err(e) => {
                        return Err(e);
                    },
                }
                match self.spi_clk_off() {
                    Ok(()) => (),
                    Err(e) => {
                        return Err(e);
                    },
                }
                self.smart_flag = true;
            }
            proof {
                let sh = spec_shutter(buf[5], buf[6]);
                if spec_smart_toggle(old(self).spec_smart_flag(), sh) is Some {
                    assert(self.bus@ =~= old(self).bus@.push(
                        BusOp::BurstRead(PMW3610_BURST_READ, buf),
                    ) + spec_smart_write_ops(
                        spec_smart_toggle(old(self).spec_smart_flag(), sh),
                    ));
                }
            }
        }
        proof {
            assert(spec_read_motion_ops_post(
                old(self).spec_config(),
                old(self).spec_smart_flag(),
                self.spec_smart_flag(),
                old(self).bus_ops(),
                self.bus_ops(),
                buf,
            ));
        }
        Ok(m)
    }
}

} // verus!
