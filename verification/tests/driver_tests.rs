//! Tests of the bus driver and device lifecycle against a simulated sensor.
//!
//! The simulation implements the pin capabilities and decodes the bit-banged
//! wire protocol edge by edge, so these tests exercise the real transport:
//! commands are reassembled from clock edges and data levels, register reads
//! are answered from a scripted register model, and every logical read and
//! write is recorded for the assertions.

use std::cell::RefCell;
use std::rc::Rc;

use pmw3610::BidirectionalPin;
use pmw3610::DelayProvider;
use pmw3610::InitState;
use pmw3610::InputPin;
use pmw3610::MotionData;
use pmw3610::OutputPin;
use pmw3610::Pmw3610;
use pmw3610::Pmw3610Config;
use pmw3610::Pmw3610Device;
use pmw3610::Pmw3610Error;

const REG_PROD_ID: u8 = 0x00;
const REG_RES_STEP: u8 = 0x05;
const REG_PERFORMANCE: u8 = 0x11;
const REG_BURST: u8 = 0x12;
const REG_OBSERVATION1: u8 = 0x2d;
const REG_SMART_MODE: u8 = 0x32;
const REG_POWER_UP_RESET: u8 = 0x3a;
const REG_SPI_CLK: u8 = 0x41;
const REG_PAGE: u8 = 0x7f;

struct BusState {
    // Register-level model.
    regs: Vec<u8>,
    prod_id_responses: Vec<u8>,
    id_reads: usize,
    obs_response: u8,
    burst_frames: Vec<Vec<u8>>,
    reads: Vec<u8>,
    writes: Vec<(u8, u8)>,
    // Wire-level state.
    cs_low: bool,
    sdio_out_mode: bool,
    sdio_host_level: bool,
    host_bits: Vec<bool>,
    pending_write_addr: Option<u8>,
    device_bits: Vec<bool>,
    device_pos: usize,
    device_level: bool,
    // Observed delays.
    ms_delays: Vec<u32>,
}

impl BusState {
    fn new() -> Self {
        BusState {
            regs: vec![0u8; 256],
            prod_id_responses: vec![0x3e],
            id_reads: 0,
            obs_response: 0x0f,
            burst_frames: Vec::new(),
            reads: Vec::new(),
            writes: Vec::new(),
            cs_low: false,
            sdio_out_mode: false,
            sdio_host_level: false,
            host_bits: Vec::new(),
            pending_write_addr: None,
            device_bits: Vec::new(),
            device_pos: 0,
            device_level: false,
            ms_delays: Vec::new(),
        }
    }

    fn begin_transaction(&mut self) {
        self.cs_low = true;
        self.host_bits.clear();
        self.pending_write_addr = None;
        self.device_bits.clear();
        self.device_pos = 0;
    }

    fn end_transaction(&mut self) {
        self.cs_low = false;
    }

    fn response_bytes(&mut self, addr: u8) -> Vec<u8> {
        self.reads.push(addr);
        if addr == REG_PROD_ID {
            let i = self.id_reads.min(self.prod_id_responses.len() - 1);
            self.id_reads += 1;
            vec![self.prod_id_responses[i]]
        } else if addr == REG_OBSERVATION1 {
            vec![self.obs_response]
        } else if addr == REG_BURST {
            if self.burst_frames.is_empty() {
                vec![0u8; 7]
            } else {
                self.burst_frames.remove(0)
            }
        } else {
            vec![self.regs[addr as usize]]
        }
    }

    fn rising_edge(&mut self) {
        if !self.cs_low {
            return;
        }
        if self.sdio_out_mode {
            // Host is driving: sample one command/data bit.
            self.host_bits.push(self.sdio_host_level);
            if self.host_bits.len() == 8 {
                let mut byte = 0u8;
                for &bit in self.host_bits.iter() {
                    byte = (byte << 1) | (bit as u8);
                }
                self.host_bits.clear();
                if let Some(addr) = self.pending_write_addr.take() {
                    self.writes.push((addr, byte));
                    self.regs[addr as usize] = byte;
                } else if byte & 0x80 != 0 {
                    self.pending_write_addr = Some(byte & 0x7f);
                } else {
                    let resp = self.response_bytes(byte & 0x7f);
                    self.device_bits.clear();
                    for b in resp {
                        for i in (0..8).rev() {
                            self.device_bits.push((b >> i) & 1 == 1);
                        }
                    }
                    self.device_pos = 0;
                }
            }
        } else {
            // Device is driving: present the next response bit.
            self.device_level = self.device_bits.get(self.device_pos).copied().unwrap_or(false);
            self.device_pos += 1;
        }
    }

    fn writes_to(&self, addr: u8) -> Vec<u8> {
        self.writes.iter().filter(|w| w.0 == addr).map(|w| w.1).collect()
    }

    fn backoffs(&self) -> usize {
        self.ms_delays.iter().filter(|&&ms| ms == 100).count()
    }
}

#[derive(Clone)]
struct SharedBus(Rc<RefCell<BusState>>);

impl SharedBus {
    fn new() -> Self {
        SharedBus(Rc::new(RefCell::new(BusState::new())))
    }
}

struct SimSck(SharedBus);

impl OutputPin for SimSck {
    fn set_high(&mut self) {
        self.0 .0.borrow_mut().rising_edge();
    }
    fn set_low(&mut self) {}
}

struct SimCs(SharedBus);

impl OutputPin for SimCs {
    fn set_high(&mut self) {
        self.0 .0.borrow_mut().end_transaction();
    }
    fn set_low(&mut self) {
        self.0 .0.borrow_mut().begin_transaction();
    }
}

struct SimSdio(SharedBus);

impl BidirectionalPin for SimSdio {
    fn set_as_output(&mut self) {
        self.0 .0.borrow_mut().sdio_out_mode = true;
    }
    fn set_as_input(&mut self) {
        self.0 .0.borrow_mut().sdio_out_mode = false;
    }
    fn set_high(&mut self) {
        self.0 .0.borrow_mut().sdio_host_level = true;
    }
    fn set_low(&mut self) {
        self.0 .0.borrow_mut().sdio_host_level = false;
    }
    fn is_high(&self) -> bool {
        self.0 .0.borrow().device_level
    }
}

struct SimMotion {
    pending: bool,
}

impl InputPin for SimMotion {
    fn is_low(&mut self) -> bool {
        self.pending
    }
}

struct SimDelay(SharedBus);

impl DelayProvider for SimDelay {
    fn spi_delay(&mut self) {}
    fn short_delay(&mut self) {}
    fn delay_us(&mut self, _us: u32) {}
    fn delay_ms(&mut self, ms: u32) {
        self.0 .0.borrow_mut().ms_delays.push(ms);
    }
}

type SimSensor = Pmw3610<SimSck, SimSdio, SimCs, SimMotion, SimDelay>;
type SimDevice = Pmw3610Device<SimSck, SimSdio, SimCs, SimMotion, SimDelay>;

fn make_sensor(bus: &SharedBus, config: Pmw3610Config) -> SimSensor {
    Pmw3610::new(
        SimSck(bus.clone()),
        SimSdio(bus.clone()),
        SimCs(bus.clone()),
        None,
        SimDelay(bus.clone()),
        config,
    )
}

fn make_device(bus: &SharedBus, config: Pmw3610Config) -> SimDevice {
    Pmw3610Device::new(
        SimSck(bus.clone()),
        SimSdio(bus.clone()),
        SimCs(bus.clone()),
        None,
        SimDelay(bus.clone()),
        config,
    )
}

/// An extended burst frame carrying a motion-bit sample and a shutter value.
fn smart_frame(shutter: u16) -> Vec<u8> {
    vec![0x80, 0x01, 0x01, 0x00, 0x00, (shutter >> 8) as u8, (shutter & 0xff) as u8]
}

#[test]
fn set_resolution_rejects_out_of_range_without_bus_traffic() {
    let bus = SharedBus::new();
    let mut sensor = make_sensor(&bus, Pmw3610Config::default());
    for cpi in [0u16, 199, 3201] {
        assert_eq!(sensor.set_resolution(cpi), Err(Pmw3610Error::InvalidCpi));
    }
    assert!(bus.0.borrow().writes.is_empty());
    assert!(bus.0.borrow().reads.is_empty());
}

#[test]
fn set_resolution_accepts_range_bounds() {
    let bus = SharedBus::new();
    let mut sensor = make_sensor(&bus, Pmw3610Config::default());
    assert_eq!(sensor.set_resolution(200), Ok(()));
    assert_eq!(sensor.set_resolution(1000), Ok(()));
    assert_eq!(sensor.set_resolution(3200), Ok(()));
    assert_eq!(bus.0.borrow().writes_to(REG_RES_STEP), vec![1, 5, 16]);
}

#[test]
fn set_resolution_writes_exact_sequence() {
    let bus = SharedBus::new();
    let mut sensor = make_sensor(&bus, Pmw3610Config::default());
    assert_eq!(sensor.set_resolution(1000), Ok(()));
    let state = bus.0.borrow();
    assert_eq!(
        state.writes,
        vec![
            (REG_SPI_CLK, 0xba),
            (REG_PAGE, 0xff),
            (REG_RES_STEP, 5),
            (REG_PAGE, 0x00),
            (REG_SPI_CLK, 0xb5),
        ]
    );
    assert_eq!(state.reads, vec![REG_RES_STEP]);
}

#[test]
fn set_resolution_rounds_down_to_step() {
    // 250 CPI writes the same register value as 200 CPI: the quotient is
    // truncated to the step below.
    let bus_a = SharedBus::new();
    let mut sensor_a = make_sensor(&bus_a, Pmw3610Config::default());
    assert_eq!(sensor_a.set_resolution(250), Ok(()));
    let bus_b = SharedBus::new();
    let mut sensor_b = make_sensor(&bus_b, Pmw3610Config::default());
    assert_eq!(sensor_b.set_resolution(200), Ok(()));
    assert_eq!(
        bus_a.0.borrow().writes_to(REG_RES_STEP),
        bus_b.0.borrow().writes_to(REG_RES_STEP)
    );
}

#[test]
fn set_resolution_keeps_high_register_bits() {
    let bus = SharedBus::new();
    bus.0.borrow_mut().regs[REG_RES_STEP as usize] = 0xe3;
    let mut sensor = make_sensor(&bus, Pmw3610Config::default());
    assert_eq!(sensor.set_resolution(600), Ok(()));
    assert_eq!(bus.0.borrow().writes_to(REG_RES_STEP), vec![0xe0 | 3]);
}

#[test]
fn force_awake_rewrites_mode_field() {
    let bus = SharedBus::new();
    bus.0.borrow_mut().regs[REG_PERFORMANCE as usize] = 0x0d;
    let mut sensor = make_sensor(&bus, Pmw3610Config::default());
    assert_eq!(sensor.force_awake(true), Ok(()));
    let state = bus.0.borrow();
    assert_eq!(state.reads, vec![REG_PERFORMANCE]);
    assert_eq!(
        state.writes,
        vec![(REG_SPI_CLK, 0xba), (REG_PERFORMANCE, 0xfd), (REG_SPI_CLK, 0xb5)]
    );
}

#[test]
fn force_awake_off_clears_mode_field() {
    let bus = SharedBus::new();
    bus.0.borrow_mut().regs[REG_PERFORMANCE as usize] = 0xfd;
    let mut sensor = make_sensor(&bus, Pmw3610Config::default());
    assert_eq!(sensor.force_awake(false), Ok(()));
    assert_eq!(bus.0.borrow().writes_to(REG_PERFORMANCE), vec![0x0d]);
}

#[test]
fn init_reports_wrong_identity_byte() {
    let bus = SharedBus::new();
    bus.0.borrow_mut().prod_id_responses = vec![0xaa];
    let mut sensor = make_sensor(&bus, Pmw3610Config::default());
    assert_eq!(sensor.init(), Err(Pmw3610Error::InvalidProductId(0xaa)));
    // The attempt stopped right after the identity read.
    let state = bus.0.borrow();
    assert_eq!(state.writes, vec![(REG_POWER_UP_RESET, 0x5a)]);
    assert_eq!(state.reads, vec![REG_PROD_ID]);
}

#[test]
fn init_reports_failed_calibration_check() {
    let bus = SharedBus::new();
    bus.0.borrow_mut().obs_response = 0x07;
    let mut sensor = make_sensor(&bus, Pmw3610Config::default());
    assert_eq!(sensor.init(), Err(Pmw3610Error::InitFailed));
    let state = bus.0.borrow();
    assert_eq!(state.reads, vec![REG_PROD_ID, REG_OBSERVATION1]);
}

#[test]
fn init_writes_documented_sequence() {
    let bus = SharedBus::new();
    let mut sensor = make_sensor(&bus, Pmw3610Config::default());
    assert_eq!(sensor.init(), Ok(()));
    let state = bus.0.borrow();
    assert_eq!(
        state.writes,
        vec![
            (REG_POWER_UP_RESET, 0x5a),
            (REG_SPI_CLK, 0xba),
            (REG_OBSERVATION1, 0x00),
            (REG_PERFORMANCE, 0x0d),
            (0x1b, 0x04),
            (0x1c, 0x04),
            (0x1d, 0x0f),
            (REG_SPI_CLK, 0xb5),
            // force-awake procedure (flag off) rewrites the performance
            // register inside its own clock bracket.
            (REG_SPI_CLK, 0xba),
            (REG_PERFORMANCE, 0x0d),
            (REG_SPI_CLK, 0xb5),
        ]
    );
    assert_eq!(
        state.reads,
        vec![REG_PROD_ID, REG_OBSERVATION1, 0x02, 0x03, 0x04, 0x05, REG_PERFORMANCE]
    );
}

#[test]
fn init_applies_axis_inversion_and_resolution() {
    let bus = SharedBus::new();
    let config = Pmw3610Config {
        res_cpi: 800,
        invert_x: true,
        invert_y: false,
        swap_xy: false,
        force_awake: false,
        smart_mode: false,
    };
    let mut sensor = make_sensor(&bus, config);
    assert_eq!(sensor.init(), Ok(()));
    let state = bus.0.borrow();
    // Inversion sets bit 6 and clears bit 5; the resolution procedure then
    // rewrites the low bits while keeping the inversion bits.
    assert_eq!(state.writes_to(REG_RES_STEP), vec![0x40, 0x40 | 4]);
}

#[test]
fn read_motion_decodes_frame() {
    let bus = SharedBus::new();
    bus.0
        .borrow_mut()
        .burst_frames
        .push(vec![0x80, 0xfb, 0x0a, 0xf0]);
    let mut sensor = make_sensor(&bus, Pmw3610Config::default());
    assert_eq!(sensor.read_motion(), Ok(MotionData { dx: -5, dy: 10 }));
    assert_eq!(bus.0.borrow().reads, vec![REG_BURST]);
}

#[test]
fn read_motion_swaps_axes_when_configured() {
    let bus = SharedBus::new();
    bus.0
        .borrow_mut()
        .burst_frames
        .push(vec![0x80, 0xfb, 0x0a, 0xf0]);
    let config = Pmw3610Config {
        swap_xy: true,
        ..Pmw3610Config::default()
    };
    let mut sensor = make_sensor(&bus, config);
    assert_eq!(sensor.read_motion(), Ok(MotionData { dx: 10, dy: -5 }));
}

#[test]
fn smart_mode_hysteresis_toggles_once_per_crossing() {
    let bus = SharedBus::new();
    {
        let mut state = bus.0.borrow_mut();
        for shutter in [30u16, 30, 100, 100, 30, 30] {
            state.burst_frames.push(smart_frame(shutter));
        }
    }
    let config = Pmw3610Config {
        smart_mode: true,
        ..Pmw3610Config::default()
    };
    let mut sensor = make_sensor(&bus, config);
    for _ in 0..6 {
        assert!(sensor.read_motion().is_ok());
    }
    // One crossing in each direction: exactly two toggle writes, first
    // disabling sensitivity above the threshold, then re-enabling below it.
    assert_eq!(bus.0.borrow().writes_to(REG_SMART_MODE), vec![0x80, 0x00]);
}

#[test]
fn smart_mode_same_side_issues_no_traffic() {
    let bus = SharedBus::new();
    {
        let mut state = bus.0.borrow_mut();
        for shutter in [10u16, 20, 30, 45, 44] {
            state.burst_frames.push(smart_frame(shutter));
        }
    }
    let config = Pmw3610Config {
        smart_mode: true,
        ..Pmw3610Config::default()
    };
    let mut sensor = make_sensor(&bus, config);
    for _ in 0..5 {
        assert!(sensor.read_motion().is_ok());
    }
    assert!(bus.0.borrow().writes_to(REG_SMART_MODE).is_empty());
}

#[test]
fn smart_mode_skips_quiet_frames() {
    let bus = SharedBus::new();
    {
        let mut state = bus.0.borrow_mut();
        // Motion bit clear: the decode short-circuits before the smart-mode
        // rule, whatever the shutter bytes hold.
        state.burst_frames.push(vec![0x00, 0x00, 0x00, 0x00, 0x00, 0x00, 100]);
    }
    let config = Pmw3610Config {
        smart_mode: true,
        ..Pmw3610Config::default()
    };
    let mut sensor = make_sensor(&bus, config);
    assert_eq!(sensor.read_motion(), Ok(MotionData { dx: 0, dy: 0 }));
    assert!(bus.0.borrow().writes_to(REG_SMART_MODE).is_empty());
}

#[test]
fn smart_mode_reads_extended_frames() {
    let bus = SharedBus::new();
    bus.0.borrow_mut().burst_frames.push(smart_frame(30));
    let config = Pmw3610Config {
        smart_mode: true,
        ..Pmw3610Config::default()
    };
    let mut sensor = make_sensor(&bus, config);
    // The frame decodes the same 12-bit fields as a short frame would.
    assert_eq!(sensor.read_motion(), Ok(MotionData { dx: 1, dy: 1 }));
}

#[test]
fn lifecycle_success_on_first_attempt() {
    let bus = SharedBus::new();
    let mut device = make_device(&bus, Pmw3610Config::default());
    assert_eq!(device.state(), InitState::Pending);
    let ev = device.poll_tick();
    // One attempt, no backoff, straight to ready; the quiet frame that the
    // tick then reads produces no event.
    assert_eq!(device.state(), InitState::Ready);
    assert_eq!(ev, None);
    assert_eq!(bus.0.borrow().id_reads, 1);
    assert_eq!(bus.0.borrow().backoffs(), 0);
}

#[test]
fn lifecycle_retries_until_identity_appears() {
    let bus = SharedBus::new();
    bus.0.borrow_mut().prod_id_responses = vec![0x00, 0x00, 0x3e];
    let mut device = make_device(&bus, Pmw3610Config::default());
    assert_eq!(device.poll_tick(), None);
    assert_eq!(device.state(), InitState::Initializing(1));
    assert_eq!(device.poll_tick(), None);
    assert_eq!(device.state(), InitState::Initializing(2));
    device.poll_tick();
    // Three attempts, ready on the third, two backoff delays in between.
    assert_eq!(device.state(), InitState::Ready);
    assert_eq!(bus.0.borrow().id_reads, 3);
    assert_eq!(bus.0.borrow().backoffs(), 2);
}

#[test]
fn lifecycle_fails_permanently_after_retry_bound() {
    let bus = SharedBus::new();
    bus.0.borrow_mut().prod_id_responses = vec![0x00];
    let mut device = make_device(&bus, Pmw3610Config::default());
    for _ in 0..3 {
        assert_eq!(device.poll_tick(), None);
    }
    assert_eq!(device.state(), InitState::Failed);
    assert_eq!(bus.0.borrow().id_reads, 3);
    // Subsequent ticks perform no further identity reads and no bus traffic.
    let reads_before = bus.0.borrow().reads.len();
    for _ in 0..5 {
        assert_eq!(device.poll_tick(), None);
    }
    assert_eq!(device.state(), InitState::Failed);
    assert_eq!(bus.0.borrow().id_reads, 3);
    assert_eq!(bus.0.borrow().reads.len(), reads_before);
}

#[test]
fn poll_emits_clamped_event_end_to_end() {
    let bus = SharedBus::new();
    bus.0
        .borrow_mut()
        .burst_frames
        .push(vec![0x80, 0xfb, 0x0a, 0xf0]);
    let mut device = make_device(&bus, Pmw3610Config::default());
    let ev = device.poll_tick().expect("motion event");
    assert_eq!(device.state(), InitState::Ready);
    assert_eq!((ev.dx, ev.dy), (-5, 10));
    assert_eq!((ev.x, ev.y), (-5, 10));
}

#[test]
fn poll_clamps_large_deltas() {
    let bus = SharedBus::new();
    // delta-X = 300 (0x12c), delta-Y = -300 (0xed4).
    bus.0
        .borrow_mut()
        .burst_frames
        .push(vec![0x80, 0x2c, 0xd4, 0x1e]);
    let mut device = make_device(&bus, Pmw3610Config::default());
    let ev = device.poll_tick().expect("motion event");
    assert_eq!((ev.dx, ev.dy), (300, -300));
    assert_eq!((ev.x, ev.y), (127, -127));
}

#[test]
fn poll_drops_zero_samples() {
    let bus = SharedBus::new();
    bus.0
        .borrow_mut()
        .burst_frames
        .push(vec![0x00, 0xff, 0xff, 0xff]);
    let mut device = make_device(&bus, Pmw3610Config::default());
    assert_eq!(device.poll_tick(), None);
    assert_eq!(device.state(), InitState::Ready);
}

#[test]
fn poll_skips_when_no_motion_pending() {
    let bus = SharedBus::new();
    bus.0
        .borrow_mut()
        .burst_frames
        .push(vec![0x80, 0xfb, 0x0a, 0xf0]);
    let mut device = Pmw3610Device::new(
        SimSck(bus.clone()),
        SimSdio(bus.clone()),
        SimCs(bus.clone()),
        Some(SimMotion { pending: false }),
        SimDelay(bus.clone()),
        Pmw3610Config::default(),
    );
    // The device initializes, but the inactive motion line skips the read.
    assert_eq!(device.poll_tick(), None);
    assert_eq!(device.state(), InitState::Ready);
    let burst_reads = bus.0.borrow().reads.iter().filter(|&&r| r == REG_BURST).count();
    assert_eq!(burst_reads, 0);
}

#[test]
fn motion_pending_line_is_active_low() {
    let bus = SharedBus::new();
    let mut with_line = Pmw3610::new(
        SimSck(bus.clone()),
        SimSdio(bus.clone()),
        SimCs(bus.clone()),
        Some(SimMotion { pending: true }),
        SimDelay(bus.clone()),
        Pmw3610Config::default(),
    );
    assert!(with_line.motion_pending());
    let mut without_line = make_sensor(&bus, Pmw3610Config::default());
    assert!(without_line.motion_pending());
}
