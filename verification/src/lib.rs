//! Driver core for the PixArt PMW3610 low-power optical motion sensor.
//!
//! The sensor speaks a half-duplex SPI variant over a single bidirectional
//! data line, so the transport is bit-banged over plain GPIO capabilities.
//! The crate is organised bottom-up: pin and delay capabilities (`hal`),
//! the register map (`regs`), pure sample decoding and the adaptive
//! smart-mode rule (`decode`), the register protocol and configuration
//! driver (`driver`), and the retrying device lifecycle with its polling
//! entry point (`device`).

pub mod decode;
pub mod device;
pub mod driver;
pub mod hal;
pub mod regs;
pub mod types;

pub use device::InitState;
pub use device::Pmw3610Device;
pub use device::PollEvent;
pub use driver::Pmw3610;
pub use driver::BusOp;
pub use hal::BidirectionalPin;
pub use hal::DelayProvider;
pub use hal::InputPin;
pub use hal::OutputPin;
pub use types::MotionData;
pub use types::Pmw3610Config;
pub use types::Pmw3610Error;
