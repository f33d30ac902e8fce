//! Register map, protocol sentinels and timing constants of the PMW3610.
//!
//! All values are fixed by the vendor's datasheet and must match exactly
//! for protocol compatibility.

use vstd::prelude::*;

verus! {

// Page 0 registers.
pub const PMW3610_PROD_ID: u8 = 0x00;
pub const PMW3610_MOTION: u8 = 0x02;
pub const PMW3610_DELTA_X_L: u8 = 0x03;
pub const PMW3610_DELTA_Y_L: u8 = 0x04;
pub const PMW3610_DELTA_XY_H: u8 = 0x05;
pub const PMW3610_PERFORMANCE: u8 = 0x11;
pub const PMW3610_BURST_READ: u8 = 0x12;
pub const PMW3610_RUN_DOWNSHIFT: u8 = 0x1b;
pub const PMW3610_REST1_RATE: u8 = 0x1c;
pub const PMW3610_REST1_DOWNSHIFT: u8 = 0x1d;
pub const PMW3610_OBSERVATION1: u8 = 0x2d;
pub const PMW3610_SMART_MODE: u8 = 0x32;
pub const PMW3610_POWER_UP_RESET: u8 = 0x3a;
pub const PMW3610_SPI_CLK_ON_REQ: u8 = 0x41;
pub const PMW3610_SPI_PAGE0: u8 = 0x7f;

// Page 1 registers. The page-select address is shared; its meaning depends
// on the previously selected page.
pub const PMW3610_RES_STEP: u8 = 0x05;
pub const PMW3610_SPI_PAGE1: u8 = 0x7f;

// Burst buffer offsets.
pub const BURST_MOTION: usize = 0;
pub const BURST_DELTA_X_L: usize = 1;
pub const BURST_DELTA_Y_L: usize = 2;
pub const BURST_DELTA_XY_H: usize = 3;
pub const BURST_SHUTTER_HI: usize = 5;
pub const BURST_SHUTTER_LO: usize = 6;

/// Burst frame length in the normal operating mode: motion status, the two
/// delta low bytes and the shared delta high byte.
pub const BURST_DATA_LEN_NORMAL: usize = 4;
/// Extended burst frame length in smart mode; the extra bytes carry the
/// surface quality and the shutter value.
pub const BURST_DATA_LEN_SMART: usize = 7;

// Init sequence values.
pub const OBSERVATION1_INIT_MASK: u8 = 0x0f;
pub const PERFORMANCE_INIT: u8 = 0x0d;
pub const RUN_DOWNSHIFT_INIT: u8 = 0x04;
pub const REST1_RATE_INIT: u8 = 0x04;
pub const REST1_DOWNSHIFT_INIT: u8 = 0x0f;

// Protocol constants.
pub const PRODUCT_ID_PMW3610: u8 = 0x3e;
pub const SPI_WRITE: u8 = 0x80;
pub const MOTION_STATUS_MOTION: u8 = 0x80;
pub const SPI_CLOCK_ON_REQ_ON: u8 = 0xba;
pub const SPI_CLOCK_ON_REQ_OFF: u8 = 0xb5;
pub const RES_STEP_INV_X_BIT: u8 = 6;
pub const RES_STEP_INV_Y_BIT: u8 = 5;
pub const RES_STEP_RES_MASK: u8 = 0x1f;
pub const PERFORMANCE_FMODE_MASK: u8 = 0xf0;
pub const PERFORMANCE_FMODE_NORMAL: u8 = 0x00;
pub const PERFORMANCE_FMODE_FORCE_AWAKE: u8 = 0xf0;
pub const POWER_UP_RESET_VAL: u8 = 0x5a;
pub const SPI_PAGE0_1: u8 = 0xff;
pub const SPI_PAGE1_0: u8 = 0x00;
pub const SHUTTER_SMART_THRESHOLD: u16 = 45;
pub const SMART_MODE_ENABLE: u8 = 0x00;
pub const SMART_MODE_DISABLE: u8 = 0x80;

// The deltas are 12-bit two's-complement fields.
pub const DATA_FIELD_MASK: u16 = 0x0fff;
pub const DATA_SIGN_BIT: u16 = 0x0800;

// Timing constants (milliseconds and microseconds, from the datasheet).
pub const RESET_DELAY_MS: u32 = 10;
pub const INIT_OBSERVATION_DELAY_MS: u32 = 10;
pub const CLOCK_ON_DELAY_US: u32 = 300;
pub const T_NCS_SCLK_US: u32 = 1;
pub const T_SRAD_US: u32 = 5;
pub const T_SRX_US: u32 = 2;
pub const T_SWX_US: u32 = 35;
pub const T_SCLK_NCS_WR_US: u32 = 20;
pub const T_BEXIT_US: u32 = 2;

// Resolution constants (counts per inch).
pub const RES_STEP: u16 = 200;
pub const RES_MIN: u16 = 200;
pub const RES_MAX: u16 = 3200;

} // verus!
