//! Configuration record, error taxonomy and motion sample of the driver.

use vstd::prelude::*;

verus! {

/// PMW3610 configuration.
///
/// The record is fixed at driver construction; only the resolution and the
/// force-awake flag have setters that touch device registers afterwards.
#[derive(Clone, Copy, PartialEq, Eq, Structural, Debug)]
pub struct Pmw3610Config {
    /// CPI resolution (200-3200, step 200). Set to -1 to use the device default.
    pub res_cpi: i16,
    /// Invert X axis.
    pub invert_x: bool,
    /// Invert Y axis.
    pub invert_y: bool,
    /// Swap X and Y axes.
    pub swap_xy: bool,
    /// Force awake mode (disable power saving).
    pub force_awake: bool,
    /// Enable smart mode for better tracking on shiny surfaces.
    pub smart_mode: bool,
}

impl Default for Pmw3610Config {
    /// The default configuration: device-default resolution (sentinel -1)
    /// and every optional behaviour switched off.
    fn default() -> (c: Self)
        ensures
            c == (Pmw3610Config {
                res_cpi: -1i16,
                invert_x: false,
                invert_y: false,
                swap_xy: false,
                force_awake: false,
                smart_mode: false,
            }),
    {
        Pmw3610Config {
            res_cpi: -1,
            invert_x: false,
            invert_y: false,
            swap_xy: false,
            force_awake: false,
            smart_mode: false,
        }
    }
}

/// PMW3610 error types.
#[derive(Debug, Clone, Copy, PartialEq, Eq, Structural)]
pub enum Pmw3610Error {
    /// SPI communication error.
    Spi,
    /// Invalid product ID detected; carries the byte that was observed.
    InvalidProductId(u8),
    /// Initialization failed: the calibration-register verification did not
    /// see the expected mask.
    InitFailed,
    /// Invalid CPI value passed to the resolution setter.
    InvalidCpi,
}

/// Motion data from the sensor: one signed delta per axis.
///
/// The zero sample is the canonical "no motion" value; callers discard zero
/// samples rather than reading a separate flag.
#[derive(Debug, Clone, Copy, PartialEq, Eq, Structural)]
pub struct MotionData {
    pub dx: i16,
    pub dy: i16,
}

impl Default for MotionData {
    /// The zero sample.
    fn default() -> (m: Self)
        ensures
            m == (MotionData { dx: 0i16, dy: 0i16 }),
    {
        MotionData { dx: 0, dy: 0 }
    }
}

} // verus!
