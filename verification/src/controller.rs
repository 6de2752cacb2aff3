//! The supervisory control loop as an explicit state machine.
//!
//! The controller owns no hardware. It is driven in a handshake: each call
//! to [`Controller::step`] consumes the outcome of the previously ordered
//! action and returns the next action for the driver to perform — arm the
//! watchdog, run the one-shot boot splash, feed the watchdog, raise or
//! lower the onboard indicator, read the sensor, show a frame, or pause for
//! the cycle period. Every decision the device makes is in the transition
//! function here; performing the orders (bus traffic, drawing, delays) is
//! the driver's job.
//!
//! A fatal outcome — a failed sensor read or a failed draw — moves the
//! machine to `Halted`, where it orders nothing further; in particular no
//! watchdog feed ever follows, so the hardware watchdog eventually resets
//! the device. That is the design's only recovery path.

use vstd::prelude::*;

use crate::frame::DisplayFrame;
use crate::frame::FrameModel;
use crate::frame::build_frame;
use crate::frame::frame_spec;
use crate::reading::Reading;

verus! {

/// Seconds the hardware watchdog waits for a feed before resetting.
pub const WATCHDOG_DEADLINE_SECS: u64 = 10;

/// Milliseconds the boot splash is held before monitoring starts.
pub const BOOT_SETTLE_MS: u32 = 4000;

/// Milliseconds between the end of one monitoring cycle and the next.
pub const CYCLE_PERIOD_MS: u32 = 5000;

/// Where the controller stands: either nothing has been ordered yet, or the
/// named action has been ordered and its outcome is awaited, or the machine
/// has halted for good.
#[derive(Clone, Copy, Debug, PartialEq, Eq, Structural)]
pub enum Phase {
    /// Nothing ordered yet.
    PowerOn,
    /// Arming of the watchdog ordered.
    Arming,
    /// The one-shot boot splash ordered.
    Splashing,
    /// A watchdog feed ordered.
    Feeding,
    /// Raising the onboard indicator ordered.
    RaisingLed,
    /// A sensor read ordered.
    Sampling,
    /// Showing a frame ordered.
    Showing,
    /// Lowering the onboard indicator ordered.
    LoweringLed,
    /// The inter-cycle pause ordered.
    Pausing,
    /// A fatal failure was reported; nothing is ordered any more.
    Halted,
}

/// The outcome of the previously ordered action, handed back by the driver.
#[derive(Clone, Copy, Debug)]
pub enum Event {
    /// Nothing was ordered yet: the very first call.
    Start,
    /// The ordered action completed.
    Done,
    /// The ordered sensor read yielded this sample.
    SensorReading(Reading),
    /// The ordered sensor read failed on the bus.
    SensorFailed,
    /// An ordered draw failed on the display transport.
    DisplayFailed,
}

/// What the driver is to perform next.
#[derive(Debug)]
pub enum Action {
    /// Arm the hardware watchdog with [`WATCHDOG_DEADLINE_SECS`].
    ArmWatchdog,
    /// Run the one-shot boot sequence: initialize the display, show the
    /// splash bitmap, hold for [`BOOT_SETTLE_MS`].
    RunBootSequence,
    /// Feed the hardware watchdog.
    FeedWatchdog,
    /// Raise the onboard indicator.
    RaiseIndicator,
    /// Perform one blocking sensor read.
    ReadSensor,
    /// Draw this frame.
    ShowFrame(DisplayFrame),
    /// Lower the onboard indicator.
    LowerIndicator,
    /// Sleep for [`CYCLE_PERIOD_MS`].
    Pause,
    /// Do nothing and let the watchdog reset the device.
    HaltForReset,
}

/// The mathematical content of an action.
pub enum ActionModel {
    ArmWatchdog,
    RunBootSequence,
    FeedWatchdog,
    RaiseIndicator,
    ReadSensor,
    ShowFrame(FrameModel),
    LowerIndicator,
    Pause,
    HaltForReset,
}

impl View for Action {
    type V = ActionModel;

    open spec fn view(&self) -> ActionModel {
        match self {
            Action::ArmWatchdog => ActionModel::ArmWatchdog,
            Action::RunBootSequence => ActionModel::RunBootSequence,
            Action::FeedWatchdog => ActionModel::FeedWatchdog,
            Action::RaiseIndicator => ActionModel::RaiseIndicator,
            Action::ReadSensor => ActionModel::ReadSensor,
            Action::ShowFrame(f) => ActionModel::ShowFrame(f@),
            Action::LowerIndicator => ActionModel::LowerIndicator,
            Action::Pause => ActionModel::Pause,
            Action::HaltForReset => ActionModel::HaltForReset,
        }
    }
}

/// The control loop's state: the current phase and how often each
/// observable action has been ordered so far.
#[derive(Clone, Copy, Debug, PartialEq, Eq, Structural)]
pub struct Controller {
    pub phase: Phase,
    /// How often the watchdog was armed.
    pub arms: u64,
    /// How often the boot sequence was ordered.
    pub boots: u64,
    /// How often the watchdog was fed.
    pub feeds: u64,
    /// How often a sensor read was ordered.
    pub polls: u64,
}

/// The state before the first call.
pub open spec fn initial_spec() -> Controller {
    Controller { phase: Phase::PowerOn, arms: 0, boots: 0, feeds: 0, polls: 0 }
}

/// Which outcome the driver may report in a phase: the outcome of exactly
/// the action that phase awaits. A reported sample must be well formed.
pub open spec fn event_expected(s: Controller, ev: Event) -> bool {
    match s.phase {
        Phase::PowerOn => ev is Start,
        Phase::Arming => ev is Done,
        Phase::Splashing => ev is Done || ev is DisplayFailed,
        Phase::Feeding => ev is Done,
        Phase::RaisingLed => ev is Done,
        Phase::Sampling => (ev matches Event::SensorReading(r) && r.wf()) || ev is SensorFailed,
        Phase::Showing => ev is Done || ev is DisplayFailed,
        Phase::LoweringLed => ev is Done,
        Phase::Pausing => ev is Done,
        Phase::Halted => true,
    }
}

/// The state after one step.
pub open spec fn step_state(s: Controller, ev: Event) -> Controller {
    match s.phase {
        Phase::PowerOn => Controller {
            phase: Phase::Arming,
            arms: (s.arms + 1) as u64,
            ..s
        },
        Phase::Arming => Controller { phase: Phase::Splashing, boots: (s.boots + 1) as u64, ..s },
        Phase::Splashing => if ev is Done {
            Controller { phase: Phase::Feeding, feeds: (s.feeds + 1) as u64, ..s }
        } else {
            Controller { phase: Phase::Halted, ..s }
        },
        Phase::Feeding => Controller { phase: Phase::RaisingLed, ..s },
        Phase::RaisingLed => Controller {
            phase: Phase::Sampling,
            polls: (s.polls + 1) as u64,
            ..s
        },
        Phase::Sampling => if ev is SensorReading {
            Controller { phase: Phase::Showing, ..s }
        } else {
            Controller { phase: Phase::Halted, ..s }
        },
        Phase::Showing => if ev is Done {
            Controller { phase: Phase::LoweringLed, ..s }
        } else {
            Controller { phase: Phase::Halted, ..s }
        },
        Phase::LoweringLed => Controller { phase: Phase::Pausing, ..s },
        Phase::Pausing => Controller { phase: Phase::Feeding, feeds: (s.feeds + 1) as u64, ..s },
        Phase::Halted => s,
    }
}

/// The action one step orders.
pub open spec fn step_action(s: Controller, ev: Event) -> ActionModel {
    match s.phase {
        Phase::PowerOn => ActionModel::ArmWatchdog,
        Phase::Arming => ActionModel::RunBootSequence,
        Phase::Splashing => if ev is Done {
            ActionModel::FeedWatchdog
        } else {
            ActionModel::HaltForReset
        },
        Phase::Feeding => ActionModel::RaiseIndicator,
        Phase::RaisingLed => ActionModel::ReadSensor,
        Phase::Sampling => match ev {
            Event::SensorReading(r) => ActionModel::ShowFrame(frame_spec(r)),
            _ => ActionModel::HaltForReset,
        },
        Phase::Showing => if ev is Done {
            ActionModel::LowerIndicator
        } else {
            ActionModel::HaltForReset
        },
        Phase::LoweringLed => ActionModel::Pause,
        Phase::Pausing => ActionModel::FeedWatchdog,
        Phase::Halted => ActionModel::HaltForReset,
    }
}

impl Controller {
    /// The counter bookkeeping every reachable state satisfies. The
    /// watchdog is armed and the boot splash shown at most once; no sensor
    /// read is ever ordered before the boot splash; and the watchdog feeds
    /// keep ahead of the sensor reads: in the stretch of a cycle between
    /// the feed and the read the feed count is one ahead, elsewhere the two
    /// are level — so every read is preceded by a feed in its own cycle.
    pub open spec fn wf(self) -> bool {
        &&& self.polls <= self.feeds
        &&& self.arms <= 1
        &&& self.boots <= 1
        &&& match self.phase {
            Phase::PowerOn => self.arms == 0 && self.boots == 0 && self.feeds == 0
                && self.polls == 0,
            Phase::Arming => self.arms == 1 && self.boots == 0 && self.feeds == 0
                && self.polls == 0,
            Phase::Splashing => self.arms == 1 && self.boots == 1 && self.feeds == 0
                && self.polls == 0,
            Phase::Feeding => self.arms == 1 && self.boots == 1 && self.feeds == self.polls
                + 1,
            Phase::RaisingLed => self.arms == 1 && self.boots == 1 && self.feeds == self.polls
                + 1,
            Phase::Sampling => self.arms == 1 && self.boots == 1 && self.feeds == self.polls
                && self.polls >= 1,
            Phase::Showing => self.arms == 1 && self.boots == 1 && self.feeds == self.polls
                && self.polls >= 1,
            Phase::LoweringLed => self.arms == 1 && self.boots == 1 && self.feeds == self.polls
                && self.polls >= 1,
            Phase::Pausing => self.arms == 1 && self.boots == 1 && self.feeds == self.polls
                && self.polls >= 1,
            Phase::Halted => true,
        }
    }

    /// A controller that has ordered nothing yet.
    pub fn new() -> (c: Controller)
        ensures
            c == initial_spec(),
            c.wf(),
    {
        Controller { phase: Phase::PowerOn, arms: 0, boots: 0, feeds: 0, polls: 0 }
    }

    /// Consume the outcome of the previously ordered action and order the
    /// next one. The entire transition is pinned down by [`step_state`] and
    /// [`step_action`].
    pub fn step(&mut self, ev: Event) -> (a: Action)
        requires
            old(self).wf(),
            event_expected(*old(self), ev),
            old(self).feeds < u64::MAX,
        ensures
            *final(self) == step_state(*old(self), ev),
            a@ == step_action(*old(self), ev),
            final(self).wf(),
    {
        match self.phase {
            Phase::PowerOn => {
                self.phase = Phase::Arming;
                self.arms = self.arms + 1;
                Action::ArmWatchdog
            },
            Phase::Arming => {
                self.phase = Phase::Splashing;
                self.boots = self.boots + 1;
                Action::RunBootSequence
            },
            Phase::Splashing => {
                match ev {
                    Event::Done => {
                        self.phase = Phase::Feeding;
                        self.feeds = self.feeds + 1;
                        Action::FeedWatchdog
                    },
                    _ => {
                        self.phase = Phase::Halted;
                        Action::HaltForReset
                    },
                }
            },
            Phase::Feeding => {
                self.phase = Phase::RaisingLed;
                Action::RaiseIndicator
            },
            Phase::RaisingLed => {
                self.phase = Phase::Sampling;
                self.polls = self.polls + 1;
                Action::ReadSensor
            },
            Phase::Sampling => {
                match ev {
                    Event::SensorReading(r) => {
                        self.phase = Phase::Showing;
                        Action::ShowFrame(build_frame(&r))
                    },
                    _ => {
                        self.phase = Phase::Halted;
                        Action::HaltForReset
                    },
                }
            },
            Phase::Showing => {
                match ev {
                    Event::Done => {
                        self.phase = Phase::LoweringLed;
                        Action::LowerIndicator
                    },
                    _ => {
                        self.phase = Phase::Halted;
                        Action::HaltForReset
                    },
                }
            },
            Phase::LoweringLed => {
                self.phase = Phase::Pausing;
                Action::Pause
            },
            Phase::Pausing => {
                self.phase = Phase::Feeding;
                self.feeds = self.feeds + 1;
                Action::FeedWatchdog
            },
            Phase::Halted => Action::HaltForReset,
        }
    }
}

/// One step out of a well-formed state, on an expected outcome, lands in a
/// well-formed state.
pub proof fn lemma_step_preserves_wf(s: Controller, ev: Event)
    requires
        s.wf(),
        event_expected(s, ev),
        s.feeds < u64::MAX,
    ensures
        step_state(s, ev).wf(),
{
}

/// The watchdog feed of a cycle precedes the cycle's sensor read: whenever
/// a sensor read is ordered, the feed count is exactly one ahead of the
/// read count — the feed of this very cycle has already been ordered — and
/// the read count never overtakes the feed count.
pub proof fn lemma_feed_precedes_sample(s: Controller, ev: Event)
    requires
        s.wf(),
        event_expected(s, ev),
        s.feeds < u64::MAX,
    ensures
        step_action(s, ev) is ReadSensor ==> s.feeds == s.polls + 1,
        step_action(s, ev) is ReadSensor ==> step_state(s, ev).feeds == step_state(s, ev).polls,
        step_state(s, ev).polls <= step_state(s, ev).feeds,
{
    lemma_step_preserves_wf(s, ev);
}

/// The boot sequence runs at most once, never again after the first time,
/// and precedes every sensor read.
pub proof fn lemma_boot_runs_once(s: Controller, ev: Event)
    requires
        s.wf(),
        event_expected(s, ev),
        s.feeds < u64::MAX,
    ensures
        step_state(s, ev).boots <= 1,
        step_action(s, ev) is RunBootSequence ==> s.boots == 0 && step_state(s, ev).boots == 1,
        step_action(s, ev) is ReadSensor ==> s.boots == 1,
{
    lemma_step_preserves_wf(s, ev);
}

/// A halted controller is inert: whatever outcome is reported, the state
/// does not change and nothing but `HaltForReset` is ordered — so no
/// watchdog feed ever follows a halt.
pub proof fn lemma_halted_stays_halted(s: Controller, ev: Event)
    requires
        s.phase is Halted,
    ensures
        step_state(s, ev) == s,
        step_action(s, ev) is HaltForReset,
{
}

/// A reported failure stops the feeding for good: the step that consumes a
/// failed sensor read or a failed draw halts the machine, orders no feed,
/// and leaves the feed count where it was.
pub proof fn lemma_failure_stops_feeding(s: Controller, ev: Event)
    requires
        s.wf(),
        event_expected(s, ev),
        ev is SensorFailed || ev is DisplayFailed,
    ensures
        step_state(s, ev).phase is Halted,
        step_state(s, ev).feeds == s.feeds,
        !(step_action(s, ev) is FeedWatchdog),
{
}

/// Once halted, the controller never moves again, over any further run of
/// outcomes: the feed count at the moment of the halt is the feed count
/// forever, and the watchdog starves by design.
pub proof fn lemma_halted_forever(s: Controller, evs: Seq<Event>)
    requires
        s.phase is Halted,
    ensures
        run_state(s, evs) == s,
    decreases evs.len(),
{
    if evs.len() > 0 {
        lemma_halted_stays_halted(s, evs[0]);
        lemma_halted_forever(step_state(s, evs[0]), evs.drop_first());
    }
}

/// Every deliberate wait is comfortably shorter than the watchdog
/// deadline: the inter-cycle pause, so a healthy loop always feeds in
/// time, and the boot splash hold, which also runs armed and unfed.
pub proof fn lemma_delays_within_deadline()
    ensures
        (CYCLE_PERIOD_MS as int) < (WATCHDOG_DEADLINE_SECS as int) * 1000,
        (BOOT_SETTLE_MS as int) < (WATCHDOG_DEADLINE_SECS as int) * 1000,
{
}

/// The state a whole run of outcomes drives the controller to.
pub open spec fn run_state(s: Controller, evs: Seq<Event>) -> Controller
    decreases evs.len(),
{
    if evs.len() == 0 {
        s
    } else {
        run_state(step_state(s, evs[0]), evs.drop_first())
    }
}

/// A run is orderly when every outcome in it is expected in the state it
/// meets, and the feed counter never runs against its machine limit.
pub open spec fn run_ok(s: Controller, evs: Seq<Event>) -> bool
    decreases evs.len(),
{
    evs.len() == 0 || {
        &&& event_expected(s, evs[0])
        &&& s.feeds < u64::MAX
        &&& run_ok(step_state(s, evs[0]), evs.drop_first())
    }
}

/// Every state an orderly run reaches from a well-formed state is well
/// formed. In particular, over the whole lifetime of the process the boot
/// sequence is ordered at most once and the sensor reads never outnumber
/// the watchdog feeds.
pub proof fn lemma_run_preserves_wf(s: Controller, evs: Seq<Event>)
    requires
        s.wf(),
        run_ok(s, evs),
    ensures
        run_state(s, evs).wf(),
    decreases evs.len(),
{
    if evs.len() > 0 {
        lemma_step_preserves_wf(s, evs[0]);
        lemma_run_preserves_wf(step_state(s, evs[0]), evs.drop_first());
    }
}

/// Over any orderly lifetime of the process, started at power-on, the boot
/// sequence is ordered at most once, and the watchdog has always been fed
/// at least as often as the sensor has been read.
pub proof fn lemma_lifetime_bookkeeping(evs: Seq<Event>)
    requires
        run_ok(initial_spec(), evs),
    ensures
        run_state(initial_spec(), evs).boots <= 1,
        run_state(initial_spec(), evs).polls <= run_state(initial_spec(), evs).feeds,
{
    lemma_run_preserves_wf(initial_spec(), evs);
}

} // verus!
