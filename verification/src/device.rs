//! Device lifecycle and polling: wraps the bus driver in a bounded-retry
//! initialization state machine with a terminal failure state, and offers a
//! single polling step that the embedding program runs at a fixed cadence.

use vstd::prelude::*;

use crate::decode::clamp_to_i8;
use crate::decode::spec_clamp_i8;
use crate::decode::spec_decode_motion;
use crate::driver::BusOp;
use crate::driver::Pmw3610;
use crate::driver::spec_configure_ops_post;
use crate::driver::spec_read_motion_ops_post;
use crate::hal::BidirectionalPin;
use crate::hal::DelayProvider;
use crate::hal::InputPin;
use crate::hal::OutputPin;
use crate::types::MotionData;
use crate::types::Pmw3610Config;
use crate::types::Pmw3610Error;

verus! {

/// Maximum number of initialization attempts before the device gives up.
pub const MAX_INIT_RETRIES: u8 = 3;

/// Backoff between failed initialization attempts, in milliseconds.
pub const INIT_BACKOFF_DELAY_MS: u32 = 100;

/// The fixed polling cadence, in microseconds.
pub const POLL_INTERVAL_US: u64 = 500;

/// Initialization state for the device.
#[derive(Debug, Clone, Copy, PartialEq, Eq, Structural)]
pub enum InitState {
    /// No initialization attempt has been made yet.
    Pending,
    /// Retrying; the payload counts the attempts that have already failed.
    Initializing(u8),
    /// Initialized successfully; terminal, accepting success.
    Ready,
    /// The retry bound was exhausted; terminal, no further attempts are ever
    /// made for the lifetime of the device.
    Failed,
}

/// The lifecycle transition one initialization attempt causes. `Pending`
/// behaves as a fresh attempt counter; `Ready` and `Failed` absorb. A failed
/// attempt increments the counter until incrementing would reach the bound,
/// which moves the device to `Failed` instead.
pub open spec fn spec_lifecycle_step(state: InitState, attempt_ok: bool) -> InitState {
    match state {
        InitState::Ready => InitState::Ready,
        InitState::Failed => InitState::Failed,
        InitState::Pending => if attempt_ok {
            InitState::Ready
        } else if 1 >= MAX_INIT_RETRIES {
            InitState::Failed
        } else {
            InitState::Initializing(1)
        },
        InitState::Initializing(n) => if attempt_ok {
            InitState::Ready
        } else if n + 1 >= MAX_INIT_RETRIES {
            InitState::Failed
        } else {
            InitState::Initializing((n + 1) as u8)
        },
    }
}

/// The state after a whole run of initialization attempts.
pub open spec fn spec_lifecycle_run(state: InitState, outcomes: Seq<bool>) -> InitState
    decreases outcomes.len(),
{
    if outcomes.len() == 0 {
        state
    } else {
        spec_lifecycle_run(spec_lifecycle_step(state, outcomes[0]), outcomes.drop_first())
    }
}

/// `Ready` and `Failed` are absorbing: no run of further attempt outcomes
/// moves the lifecycle out of either.
pub proof fn lemma_lifecycle_absorbing(outcomes: Seq<bool>)
    ensures
        spec_lifecycle_run(InitState::Ready, outcomes) == InitState::Ready,
        spec_lifecycle_run(InitState::Failed, outcomes) == InitState::Failed,
    decreases outcomes.len(),
{
    if outcomes.len() > 0 {
        lemma_lifecycle_absorbing(outcomes.drop_first());
    }
}

/// Running a concatenated run of outcomes is running the first part, then
/// the second from the state the first part reached.
pub proof fn lemma_lifecycle_run_concat(state: InitState, s: Seq<bool>, t: Seq<bool>)
    ensures
        spec_lifecycle_run(state, s + t) == spec_lifecycle_run(spec_lifecycle_run(state, s), t),
    decreases s.len(),
{
    if s.len() == 0 {
        assert(s + t =~= t);
    } else {
        assert((s + t).drop_first() =~= s.drop_first() + t);
        lemma_lifecycle_run_concat(spec_lifecycle_step(state, s[0]), s.drop_first(), t);
    }
}

/// Failed attempts from a mid-retry state accumulate one by one until the
/// bound is reached, which is terminal.
proof fn lemma_lifecycle_failures_from(n: u8, outcomes: Seq<bool>)
    requires
        n < MAX_INIT_RETRIES,
        forall|i: int| 0 <= i < outcomes.len() ==> !outcomes[i],
    ensures
        spec_lifecycle_run(InitState::Initializing(n), outcomes) == (if n + outcomes.len()
            >= MAX_INIT_RETRIES {
            InitState::Failed
        } else {
            InitState::Initializing((n + outcomes.len()) as u8)
        }),
    decreases outcomes.len(),
{
    if outcomes.len() > 0 {
        assert(!outcomes[0]);
        if n + 1 >= MAX_INIT_RETRIES {
            lemma_lifecycle_absorbing(outcomes.drop_first());
        } else {
            lemma_lifecycle_failures_from((n + 1) as u8, outcomes.drop_first());
        }
    }
}

/// Bounded retry, terminal failure: from a fresh device, attempts that all
/// fail reach `Failed` exactly when their number reaches the retry bound,
/// and short runs leave the device still counting.
pub proof fn lemma_lifecycle_all_failures(outcomes: Seq<bool>)
    requires
        forall|i: int| 0 <= i < outcomes.len() ==> !outcomes[i],
    ensures
        outcomes.len() >= MAX_INIT_RETRIES ==> spec_lifecycle_run(InitState::Pending, outcomes)
            == InitState::Failed,
        0 < outcomes.len() < MAX_INIT_RETRIES ==> spec_lifecycle_run(InitState::Pending, outcomes)
            == InitState::Initializing(outcomes.len() as u8),
{
    if outcomes.len() > 0 {
        assert(!outcomes[0]);
        lemma_lifecycle_failures_from(1, outcomes.drop_first());
    }
}

/// Success path: if the first successful attempt comes before the retry
/// bound is exhausted, the device reaches `Ready` and stays there, whatever
/// follows.
pub proof fn lemma_lifecycle_success(outcomes: Seq<bool>, k: int)
    requires
        0 <= k < outcomes.len(),
        forall|i: int| 0 <= i < k ==> !outcomes[i],
        outcomes[k],
        k < MAX_INIT_RETRIES,
    ensures
        spec_lifecycle_run(InitState::Pending, outcomes) == InitState::Ready,
{
    let pre = outcomes.take(k);
    let rest = outcomes.skip(k);
    assert(outcomes =~= pre + rest);
    lemma_lifecycle_run_concat(InitState::Pending, pre, rest);
    assert(forall|i: int| 0 <= i < pre.len() ==> !pre[i]);
    lemma_lifecycle_all_failures(pre);
    let reached = spec_lifecycle_run(InitState::Pending, pre);
    assert(rest[0]);
    assert(spec_lifecycle_step(reached, rest[0]) == InitState::Ready);
    lemma_lifecycle_absorbing(rest.drop_first());
}

/// What one lifecycle step does to the state and the transcript. In the two
/// terminal states nothing happens at all. Otherwise exactly one
/// initialization attempt runs: the transcript grows by the power-up wait
/// and the attempt's transactions for its outcome, the state moves by
/// `spec_lifecycle_step` on that outcome, and a failure that leaves retries
/// appends the backoff wait — a success or the move to `Failed` incurs none.
pub open spec fn spec_try_init_post(
    cfg: Pmw3610Config,
    state0: InitState,
    bus0: Seq<BusOp>,
    state1: InitState,
    bus1: Seq<BusOp>,
    ready: bool,
) -> bool {
    match state0 {
        InitState::Ready => state1 == InitState::Ready && bus1 == bus0 && ready,
        InitState::Failed => state1 == InitState::Failed && bus1 == bus0 && !ready,
        _ => exists|r: Result<(), Pmw3610Error>, mid: Seq<BusOp>|
            {
                &&& #[trigger] spec_configure_ops_post(cfg, bus0.push(BusOp::WaitMs(1)), mid, r)
                &&& ready == (r is Ok)
                &&& state1 == spec_lifecycle_step(state0, r is Ok)
                &&& bus1 == if r is Ok || state1 is Failed {
                    mid
                } else {
                    mid.push(BusOp::WaitMs(INIT_BACKOFF_DELAY_MS))
                }
            },
    }
}

/// What a tick taken from `Ready` does: the motion-pending line is sampled
/// and recorded; an inactive line ends the tick with no bus traffic beyond
/// that sample; an active one performs the burst read and the smart-mode
/// rule, and the tick emits the decoded sample — clamped per axis for the
/// report — exactly when it is non-zero.
pub open spec fn spec_poll_ready_post(
    cfg: Pmw3610Config,
    flag0: bool,
    bus0: Seq<BusOp>,
    flag1: bool,
    bus1: Seq<BusOp>,
    ev: Option<PollEvent>,
) -> bool {
    ||| {
        &&& bus1 == bus0.push(BusOp::MotionGate(false))
        &&& flag1 == flag0
        &&& ev is None
    }
    ||| exists|buf: Seq<u8>|
        {
            let m = spec_decode_motion(buf, cfg.swap_xy);
            &&& #[trigger] spec_read_motion_ops_post(
                cfg,
                flag0,
                flag1,
                bus0.push(BusOp::MotionGate(true)),
                bus1,
                buf,
            )
            &&& ev == if m.dx == 0 && m.dy == 0 {
                None::<PollEvent>
            } else {
                (Some(
                    PollEvent {
                        dx: m.dx,
                        dy: m.dy,
                        x: spec_clamp_i8(m.dx),
                        y: spec_clamp_i8(m.dy),
                    },
                ))
            }
        }
}

/// One emitted motion event: the raw per-axis deltas and their clamped
/// 8-bit forms as carried by a report.
#[derive(Debug, Clone, Copy, PartialEq, Eq, Structural)]
pub struct PollEvent {
    /// Raw X delta.
    pub dx: i16,
    /// Raw Y delta.
    pub dy: i16,
    /// X delta clamped to the 8-bit signed report range.
    pub x: i8,
    /// Y delta clamped to the 8-bit signed report range.
    pub y: i8,
}

/// The PMW3610 as a polled input device: the bus driver plus the bounded
/// retry lifecycle.
pub struct Pmw3610Device<SCK, SDIO, CS, MOTION, D> where
    SCK: OutputPin,
    SDIO: BidirectionalPin,
    CS: OutputPin,
    MOTION: InputPin,
    D: DelayProvider,
 {
    sensor: Pmw3610<SCK, SDIO, CS, MOTION, D>,
    init_state: InitState,
}

impl<SCK, SDIO, CS, MOTION, D> Pmw3610Device<SCK, SDIO, CS, MOTION, D> where
    SCK: OutputPin,
    SDIO: BidirectionalPin,
    CS: OutputPin,
    MOTION: InputPin,
    D: DelayProvider,
 {
    /// The lifecycle state the device is in.
    pub closed spec fn spec_state(&self) -> InitState {
        self.init_state
    }

    /// The configuration the wrapped driver was constructed with.
    pub closed spec fn spec_sensor_config(&self) -> Pmw3610Config {
        self.sensor.spec_config()
    }

    /// The wrapped driver's smart-mode flag.
    pub closed spec fn spec_smart_flag(&self) -> bool {
        self.sensor.spec_smart_flag()
    }

    /// The wrapped driver's transcript of observable steps: register
    /// transactions, millisecond waits, motion-gate samples.
    pub closed spec fn bus_ops(&self) -> Seq<BusOp> {
        self.sensor.bus_ops()
    }

    /// Well-formedness: while retrying, the count of failed attempts stays
    /// strictly below the retry bound.
    pub open spec fn wf(&self) -> bool {
        self.spec_state() matches InitState::Initializing(n) ==> n < MAX_INIT_RETRIES
    }

    /// Create a new polled device around a fresh driver. No bus traffic
    /// happens until the first poll.
    pub fn new(
        sck: SCK,
        sdio: SDIO,
        cs: CS,
        motion_gpio: Option<MOTION>,
        delay: D,
        config: Pmw3610Config,
    ) -> (s: Self)
        ensures
            s.wf(),
            s.spec_state() == InitState::Pending,
            s.spec_sensor_config() == config,
            s.spec_smart_flag() == false,
            s.bus_ops() == Seq::<BusOp>::empty(),
    {
        Self {
            sensor: Pmw3610::new(sck, sdio, cs, motion_gpio, delay, config),
            init_state: InitState::Pending,
        }
    }

    /// The lifecycle state the device is in.
    pub fn state(&self) -> (s: InitState)
        ensures
            s == self.spec_state(),
    {
        self.init_state
    }

    /// Drive the lifecycle one step: nothing happens in the two terminal
    /// states; otherwise exactly one initialization attempt runs, counted
    /// and backed off on failure, the state moves as `spec_lifecycle_step`
    /// says, and the transcript grows by exactly that attempt's
    /// transactions (plus the backoff wait where a retry is left).
    pub fn try_init(&mut self) -> (ready: bool)
        requires
            old(self).wf(),
        ensures
            final(self).wf(),
            final(self).spec_sensor_config() == old(self).spec_sensor_config(),
            final(self).spec_smart_flag() == old(self).spec_smart_flag(),
            ready == (final(self).spec_state() is Ready),
            spec_try_init_post(
                old(self).spec_sensor_config(),
                old(self).spec_state(),
                old(self).bus_ops(),
                final(self).spec_state(),
                final(self).bus_ops(),
                ready,
            ),
    {
        match self.init_state {
            InitState::Ready => {
                return true;
            },
            InitState::Failed => {
                return false;
            },
            InitState::Pending => {
                self.init_state = InitState::Initializing(0);
            },
            InitState::Initializing(_) => {},
        }

        let ghost cfg = old(self).spec_sensor_config();
        if let InitState::Initializing(retry_count) = self.init_state {
            let attempt = self.sensor.init();
            let ghost mid_bus = self.sensor.bus_ops();
            match attempt {
                Ok(()) => {
                    self.init_state = InitState::Ready;
                    proof {
                        assert(spec_configure_ops_post(
                            cfg,
                            old(self).bus_ops().push(BusOp::WaitMs(1)),
                            mid_bus,
                            Ok::<(), Pmw3610Error>(()),
                        ));
                    }
                    return true;
                },
                Err(e) => {
                    if retry_count + 1 >= MAX_INIT_RETRIES {
                        self.init_state = InitState::Failed;
                        proof {
                            assert(spec_configure_ops_post(
                                cfg,
                                old(self).bus_ops().push(BusOp::WaitMs(1)),
                                mid_bus,
                                Err::<(), Pmw3610Error>(e),
                            ));
                        }
                        return false;
                    }
                    self.init_state = InitState::Initializing(retry_count + 1);
                    self.sensor.wait_ms(INIT_BACKOFF_DELAY_MS);
                    proof {
                        assert(spec_configure_ops_post(
                            cfg,
                            old(self).bus_ops().push(BusOp::WaitMs(1)),
                            mid_bus,
                            Err::<(), Pmw3610Error>(e),
                        ));
                        assert(self.bus_ops() == mid_bus.push(
                            BusOp::WaitMs(INIT_BACKOFF_DELAY_MS),
                        ));
                    }
                    return false;
                },
            }
        }

        false
    }

    /// One tick of the polling loop. While the device is not ready the tick
    /// drives the lifecycle one step and emits nothing on non-success. Once
    /// ready it samples the motion-pending signal; an inactive line skips
    /// the tick with no further bus traffic, an active one performs the
    /// burst read and decode, and the tick emits the sample — clamped per
    /// axis to the 8-bit signed report range — unless it is zero. Zero
    /// samples are dropped, and a failed device keeps consuming its polling
    /// slot while causing no bus traffic at all.
    pub fn poll_tick(&mut self) -> (ev: Option<PollEvent>)
        requires
            old(self).wf(),
        ensures
            final(self).wf(),
            final(self).spec_sensor_config() == old(self).spec_sensor_config(),
            match old(self).spec_state() {
                InitState::Failed => final(self).spec_state() == InitState::Failed && final(self).bus_ops() == old(self).bus_ops() && final(self).spec_smart_flag() == old(self).spec_smart_flag() && ev is None,
                InitState::Ready => final(self).spec_state() == InitState::Ready
                    && spec_poll_ready_post(
                    old(self).spec_sensor_config(),
                    old(self).spec_smart_flag(),
                    old(self).bus_ops(),
                    final(self).spec_smart_flag(),
                    final(self).bus_ops(),
                    ev,
                ),
                _ => exists|mid: Seq<BusOp>|
                    {
                        &&& #[trigger] spec_try_init_post(
                            old(self).spec_sensor_config(),
                            old(self).spec_state(),
                            old(self).bus_ops(),
                            final(self).spec_state(),
                            mid,
                            final(self).spec_state() is Ready,
                        )
                        &&& if final(self).spec_state() is Ready {
                            spec_poll_ready_post(
                                old(self).spec_sensor_config(),
                                old(self).spec_smart_flag(),
                                mid,
                                final(self).spec_smart_flag(),
                                final(self).bus_ops(),
                                ev,
                            )
                        } else {
                            &&& final(self).bus_ops() == mid
                            &&& final(self).spec_smart_flag() == old(self).spec_smart_flag()
                            &&& ev is None
                        }
                    },
            },
            ev matches Some(e) ==> {
                &&& final(self).spec_state() is Ready
                &&& (e.dx != 0 || e.dy != 0)
                &&& e.x == spec_clamp_i8(e.dx)
                &&& e.y == spec_clamp_i8(e.dy)
            },
    {
        let ghost cfg = old(self).spec_sensor_config();

        // Try to initialize if not ready yet.
        if self.init_state != InitState::Ready {
            if !self.try_init() {
                proof {
                    if !(old(self).spec_state() is Ready) && !(old(self).spec_state() is Failed) {
                        assert(spec_try_init_post(
                            cfg,
                            old(self).spec_state(),
                            old(self).bus_ops(),
                            self.spec_state(),
                            self.bus_ops(),
                            false,
                        ));
                    }
                }
                return None;
            }
        }
        let ghost mid_bus = self.bus_ops();
        let ghost mid_flag = self.spec_smart_flag();

        // Only read if motion is pending (motion line low) or no motion
        // line is wired.
        if !self.sensor.motion_pending() {
            proof {
                assert(self.bus_ops() == mid_bus.push(BusOp::MotionGate(false)));
                assert(spec_poll_ready_post(
                    cfg,
                    mid_flag,
                    mid_bus,
                    self.spec_smart_flag(),
                    self.bus_ops(),
                    None::<PollEvent>,
                ));
            }
            return None;
        }
        let ghost gated_bus = self.bus_ops();
        let ghost pre_flag = self.spec_smart_flag();

        let motion_r = self.sensor.read_motion();
        match motion_r {
            Ok(motion) => {
                proof {
                    let buf = choose|b: Seq<u8>|
                        {
                            &&& #[trigger] spec_read_motion_ops_post(
                                cfg,
                                pre_flag,
                                self.spec_smart_flag(),
                                gated_bus,
                                self.bus_ops(),
                                b,
                            )
                            &&& motion_r == Ok::<MotionData, Pmw3610Error>(
                                spec_decode_motion(b, cfg.swap_xy),
                            )
                        };
                    let m = spec_decode_motion(buf, cfg.swap_xy);
                    assert(m == motion);
                    if m.dx != 0 || m.dy != 0 {
                        assert(spec_poll_ready_post(
                            cfg,
                            mid_flag,
                            mid_bus,
                            self.spec_smart_flag(),
                            self.bus_ops(),
                            Some(
                                PollEvent {
                                    dx: m.dx,
                                    dy: m.dy,
                                    x: spec_clamp_i8(m.dx),
                                    y: spec_clamp_i8(m.dy),
                                },
                            ),
                        ));
                    } else {
                        assert(spec_poll_ready_post(
                            cfg,
                            mid_flag,
                            mid_bus,
                            self.spec_smart_flag(),
                            self.bus_ops(),
                            None::<PollEvent>,
                        ));
                    }
                }
                if motion.dx != 0 || motion.dy != 0 {
                    let x = clamp_to_i8(motion.dx);
                    let y = clamp_to_i8(motion.dy);
                    return Some(PollEvent { dx: motion.dx, dy: motion.dy, x, y });
                }
                None
            },
            Err(_e) => {
                // Decode errors are dropped silently; the driver's contract
                // rules them out.
                proof {
                    assert(false);
                }
                None
            },
        }
    }
}

} // verus!
