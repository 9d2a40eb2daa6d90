//! The per-cycle telemetry loop as a state machine: the caller performs each
//! action it is handed and reports what came of it as the next event.
use vstd::prelude::*;

use crate::indicator::IndicatorColor;
use crate::payload::{body_text, build_request, request_text, Reading};
use crate::sensor_config::{format_mac_address, mac_text, SensorInfo};
use crate::MAX_MEASUREMENTS;

verus! {

/// Pause after the sensor had no sample or could not be asked, in ms.
pub const SENSOR_RETRY_DELAY_MS: u64 = 5000;

/// Pause after the collector could not be reached, in ms.
pub const CONNECT_RETRY_DELAY_MS: u64 = 1000;

/// Low-power sleep at the end of a completed cycle, in ms.
pub const LIGHT_SLEEP_DURATION_MS: u64 = 20000;

/// Failures that the sensor reports.
#[derive(Clone, Copy, Debug, PartialEq, Eq, Structural)]
pub enum SensorError {
    ChecksumMismatch,
    BusError,
    DeviceInternalError,
    SelfTestFailure,
    OperationNotPermitted,
}

/// What the sensor measured: CO2 in ppm and the JSON number texts of
/// temperature and relative humidity.
#[derive(Clone, Debug)]
pub struct Sample {
    pub co2: u16,
    pub temperature: String,
    pub humidity: String,
}

/// Where the current cycle stands.
#[derive(Clone, Debug)]
pub enum Phase {
    /// Between cycles.
    Idle,
    /// Waiting to learn whether a sample is ready.
    Probing,
    /// Waiting for the sample.
    Fetching,
    /// Waiting for the connection to the collector; holds the reading to send.
    Connecting(Reading),
    /// Waiting for the request to be written.
    Writing,
    /// Waiting for the collector's answer.
    AwaitingResponse,
}

/// The outcome of the last action, handed back to the loop.
#[derive(Debug)]
pub enum Event {
    /// Time to begin a cycle.
    Tick,
    /// Whether a fresh sample is ready.
    Probed(Result<bool, SensorError>),
    /// The sample, or why it could not be read.
    Fetched(Result<Sample, SensorError>),
    /// Whether the connection was opened.
    Connected(bool),
    /// Whether the whole request was written.
    Written(bool),
    /// Whether the answer could be read (an empty answer counts as read).
    ResponseRead(bool),
}

/// What the caller does next.
#[derive(Clone, Debug)]
pub enum Action {
    /// Restart the whole device.
    Restart,
    /// Ask the sensor whether a sample is ready.
    ProbeSensor,
    /// Read the sample.
    FetchSample,
    /// Open a connection to the collector.
    Connect,
    /// Write this request on the connection.
    Send(String),
    /// Read the collector's answer once.
    ReadResponse,
    /// Begin the next cycle with a `Tick`.
    NextCycle,
}

/// The abstract form of an action.
pub enum ActionView {
    Restart,
    ProbeSensor,
    FetchSample,
    Connect,
    Send(Seq<char>),
    ReadResponse,
    NextCycle,
}

impl View for Action {
    type V = ActionView;

    open spec fn view(&self) -> ActionView {
        match self {
            Action::Restart => ActionView::Restart,
            Action::ProbeSensor => ActionView::ProbeSensor,
            Action::FetchSample => ActionView::FetchSample,
            Action::Connect => ActionView::Connect,
            Action::Send(s) => ActionView::Send(s@),
            Action::ReadResponse => ActionView::ReadResponse,
            Action::NextCycle => ActionView::NextCycle,
        }
    }
}

/// One decision: colours to show in order, then a pause, then an action.
#[derive(Clone, Debug)]
pub struct Step {
    pub colors: Vec<IndicatorColor>,
    pub delay_ms: u64,
    pub action: Action,
}

/// The abstract form of a step.
pub struct StepView {
    pub colors: Seq<IndicatorColor>,
    pub delay_ms: u64,
    pub action: ActionView,
}

impl View for Step {
    type V = StepView;

    open spec fn view(&self) -> StepView {
        StepView { colors: self.colors@, delay_ms: self.delay_ms, action: self.action@ }
    }
}

/// The state of the loop for one device.
#[derive(Clone, Debug)]
pub struct TelemetryLoop {
    /// Cycles begun since the device started.
    pub cycle: u32,
    /// Cycles whose reading reached the collector and were answered.
    pub delivered: u32,
    pub led_disabled: bool,
    pub name: String,
    pub mac: String,
    pub serial: u64,
    /// The collector's address, as named in the request.
    pub host: String,
    pub phase: Phase,
}

/// The colours `cs`, or none when the device keeps its light off.
pub open spec fn shown(s: TelemetryLoop, cs: Seq<IndicatorColor>) -> Seq<IndicatorColor> {
    if s.led_disabled {
        Seq::empty()
    } else {
        cs
    }
}

/// A step built from its parts.
pub open spec fn step_view(colors: Seq<IndicatorColor>, delay_ms: u64, action: ActionView) -> StepView {
    StepView { colors, delay_ms, action }
}

/// The reading made from a sample in the current cycle.
pub open spec fn reading_of(s: TelemetryLoop, m: Sample) -> Reading {
    Reading {
        serial: s.serial,
        mac: s.mac,
        cycle: s.cycle,
        co2: m.co2,
        temperature: m.temperature,
        humidity: m.humidity,
    }
}

/// Whether `e` is the event that the phase waits for.
pub open spec fn accepts_spec(p: Phase, e: Event) -> bool {
    match (p, e) {
        (Phase::Idle, Event::Tick) => true,
        (Phase::Probing, Event::Probed(_)) => true,
        (Phase::Fetching, Event::Fetched(_)) => true,
        (Phase::Connecting(_), Event::Connected(_)) => true,
        (Phase::Writing, Event::Written(_)) => true,
        (Phase::AwaitingResponse, Event::ResponseRead(_)) => true,
        _ => false,
    }
}

/// The loop's policy: the next state and the step taken on an event.
pub open spec fn transition(s: TelemetryLoop, e: Event) -> (TelemetryLoop, StepView) {
    let idle = TelemetryLoop { phase: Phase::Idle, ..s };
    match (s.phase, e) {
        (Phase::Idle, Event::Tick) => if s.cycle >= MAX_MEASUREMENTS {
            (s, step_view(shown(s, seq![IndicatorColor::Yellow]), 0, ActionView::Restart))
        } else {
            (
                TelemetryLoop { cycle: (s.cycle + 1) as u32, phase: Phase::Probing, ..s },
                step_view(shown(s, seq![IndicatorColor::Green]), 0, ActionView::ProbeSensor),
            )
        },
        (Phase::Probing, Event::Probed(Ok(true))) => (
            TelemetryLoop { phase: Phase::Fetching, ..s },
            step_view(Seq::empty(), 0, ActionView::FetchSample),
        ),
        (Phase::Probing, Event::Probed(Ok(false))) => (
            idle,
            step_view(
                shown(s, seq![IndicatorColor::Yellow, IndicatorColor::Red]),
                SENSOR_RETRY_DELAY_MS,
                ActionView::NextCycle,
            ),
        ),
        (Phase::Probing, Event::Probed(Err(_))) => (
            idle,
            step_view(
                shown(s, seq![IndicatorColor::Red, IndicatorColor::Yellow]),
                SENSOR_RETRY_DELAY_MS,
                ActionView::NextCycle,
            ),
        ),
        (Phase::Fetching, Event::Fetched(Ok(m))) => (
            TelemetryLoop { phase: Phase::Connecting(reading_of(s, m)), ..s },
            step_view(shown(s, seq![IndicatorColor::Blue]), 0, ActionView::Connect),
        ),
        (Phase::Fetching, Event::Fetched(Err(_))) => (
            idle,
            step_view(shown(s, seq![IndicatorColor::Red]), 0, ActionView::NextCycle),
        ),
        (Phase::Connecting(r), Event::Connected(true)) => (
            TelemetryLoop { phase: Phase::Writing, ..s },
            step_view(Seq::empty(), 0, ActionView::Send(request_text(s.name@, s.host@, body_text(r)))),
        ),
        (Phase::Connecting(_), Event::Connected(false)) => (
            idle,
            step_view(shown(s, seq![IndicatorColor::Red]), CONNECT_RETRY_DELAY_MS, ActionView::NextCycle),
        ),
        (Phase::Writing, Event::Written(true)) => (
            TelemetryLoop { phase: Phase::AwaitingResponse, ..s },
            step_view(Seq::empty(), 0, ActionView::ReadResponse),
        ),
        (Phase::AwaitingResponse, Event::ResponseRead(true)) => (
            TelemetryLoop { delivered: (s.delivered + 1) as u32, phase: Phase::Idle, ..s },
            step_view(shown(s, seq![IndicatorColor::Off]), LIGHT_SLEEP_DURATION_MS, ActionView::NextCycle),
        ),
        _ => (idle, step_view(Seq::empty(), 0, ActionView::NextCycle)),
    }
}

impl TelemetryLoop {
    /// The counters stay within the restart ceiling, and at most one delivery
    /// counts per cycle.
    pub open spec fn wf(&self) -> bool {
        &&& self.cycle <= MAX_MEASUREMENTS
        &&& self.delivered <= self.cycle
        &&& !(self.phase is Idle) ==> self.delivered < self.cycle
    }

    /// A loop for a freshly started device, before its first cycle.
    pub fn new(profile: &SensorInfo, mac_address: &[u8; 6], serial: u64, host: String) -> (r: TelemetryLoop)
        ensures
            r.wf(),
            r.cycle == 0,
            r.delivered == 0,
            r.phase is Idle,
            r.led_disabled == profile.is_led_disabled,
            r.name == profile.name,
            r.mac@ == mac_text(mac_address@),
            r.serial == serial,
            r.host == host,
    {
        TelemetryLoop {
            cycle: 0,
            delivered: 0,
            led_disabled: profile.is_led_disabled,
            name: profile.name.clone(),
            mac: format_mac_address(mac_address),
            serial,
            host,
            phase: Phase::Idle,
        }
    }

    /// Whether `e` is the event that the loop waits for.
    pub fn accepts(&self, e: &Event) -> (r: bool)
        ensures
            r == accepts_spec(self.phase, *e),
    {
        match (&self.phase, e) {
            (Phase::Idle, Event::Tick) => true,
            (Phase::Probing, Event::Probed(_)) => true,
            (Phase::Fetching, Event::Fetched(_)) => true,
            (Phase::Connecting(_), Event::Connected(_)) => true,
            (Phase::Writing, Event::Written(_)) => true,
            (Phase::AwaitingResponse, Event::ResponseRead(_)) => true,
            _ => false,
        }
    }

    fn show_one(&self, c: IndicatorColor) -> (r: Vec<IndicatorColor>)
        ensures
            r@ == shown(*self, seq![c]),
    {
        let mut v = Vec::new();
        if !self.led_disabled {
            v.push(c);
        }
        assert(v@ =~= shown(*self, seq![c]));
        v
    }

    fn show_two(&self, c: IndicatorColor, d: IndicatorColor) -> (r: Vec<IndicatorColor>)
        ensures
            r@ == shown(*self, seq![c, d]),
    {
        let mut v = Vec::new();
        if !self.led_disabled {
            v.push(c);
            v.push(d);
        }
        assert(v@ =~= shown(*self, seq![c, d]));
        v
    }

    /// Takes the event that the loop waits for and decides the next step.
    pub fn step(&mut self, event: Event) -> (r: Step)
        requires
            old(self).wf(),
            accepts_spec(old(self).phase, event),
        ensures
            final(self).wf(),
            (*final(self), r@) == transition(*old(self), event),
    {
        match event {
            Event::Tick => {
                if self.cycle >= MAX_MEASUREMENTS {
                    let colors = self.show_one(IndicatorColor::Yellow);
                    return Step { colors, delay_ms: 0, action: Action::Restart };
                }
                self.cycle = self.cycle + 1;
                self.phase = Phase::Probing;
                let colors = self.show_one(IndicatorColor::Green);
                Step { colors, delay_ms: 0, action: Action::ProbeSensor }
            },
            Event::Probed(Ok(true)) => {
                self.phase = Phase::Fetching;
                Step { colors: Vec::new(), delay_ms: 0, action: Action::FetchSample }
            },
            Event::Probed(Ok(false)) => {
                self.phase = Phase::Idle;
                let colors = self.show_two(IndicatorColor::Yellow, IndicatorColor::Red);
                Step { colors, delay_ms: SENSOR_RETRY_DELAY_MS, action: Action::NextCycle }
            },
            Event::Probed(Err(_)) => {
                self.phase = Phase::Idle;
                let colors = self.show_two(IndicatorColor::Red, IndicatorColor::Yellow);
                Step { colors, delay_ms: SENSOR_RETRY_DELAY_MS, action: Action::NextCycle }
            },
            Event::Fetched(Ok(m)) => {
                let reading = Reading {
                    serial: self.serial,
                    mac: self.mac.clone(),
                    cycle: self.cycle,
                    co2: m.co2,
                    temperature: m.temperature,
                    humidity: m.humidity,
                };
                self.phase = Phase::Connecting(reading);
                let colors = self.show_one(IndicatorColor::Blue);
                Step { colors, delay_ms: 0, action: Action::Connect }
            },
            Event::Fetched(Err(_)) => {
                self.phase = Phase::Idle;
                let colors = self.show_one(IndicatorColor::Red);
                Step { colors, delay_ms: 0, action: Action::NextCycle }
            },
            Event::Connected(true) => {
                let request = match &self.phase {
                    Phase::Connecting(r) => build_request(&self.name, &self.host, r),
                    _ => String::new(),
                };
                self.phase = Phase::Writing;
                Step { colors: Vec::new(), delay_ms: 0, action: Action::Send(request) }
            },
            Event::Connected(false) => {
                self.phase = Phase::Idle;
                let colors = self.show_one(IndicatorColor::Red);
                Step { colors, delay_ms: CONNECT_RETRY_DELAY_MS, action: Action::NextCycle }
            },
            Event::Written(true) => {
                self.phase = Phase::AwaitingResponse;
                Step { colors: Vec::new(), delay_ms: 0, action: Action::ReadResponse }
            },
            Event::Written(false) => {
                self.phase = Phase::Idle;
                Step { colors: Vec::new(), delay_ms: 0, action: Action::NextCycle }
            },
            Event::ResponseRead(true) => {
                self.delivered = self.delivered + 1;
                self.phase = Phase::Idle;
                let colors = self.show_one(IndicatorColor::Off);
                Step { colors, delay_ms: LIGHT_SLEEP_DURATION_MS, action: Action::NextCycle }
            },
            Event::ResponseRead(false) => {
                self.phase = Phase::Idle;
                Step { colors: Vec::new(), delay_ms: 0, action: Action::NextCycle }
            },
        }
    }
}

/// Once the cycle count has reached the ceiling, the next cycle restarts the
/// device before any sensor or network action, and nothing else changes.
pub proof fn lemma_watchdog_restart(s: TelemetryLoop)
    requires
        s.wf(),
        s.phase is Idle,
        s.cycle >= MAX_MEASUREMENTS,
    ensures
        transition(s, Event::Tick).0 == s,
        transition(s, Event::Tick).1.action is Restart,
        transition(s, Event::Tick).1.colors == shown(s, seq![IndicatorColor::Yellow]),
{
}

/// A sample that is not ready and a probe that fails both abandon the cycle
/// after a pause of 5000 ms, with yellow then red in the first case and red
/// then yellow in the second.
pub proof fn lemma_probe_failures(s: TelemetryLoop, e: SensorError)
    requires
        s.wf(),
        s.phase is Probing,
        !s.led_disabled,
    ensures
        transition(s, Event::Probed(Ok(false))).1 == step_view(
            seq![IndicatorColor::Yellow, IndicatorColor::Red],
            5000,
            ActionView::NextCycle,
        ),
        transition(s, Event::Probed(Err(e))).1 == step_view(
            seq![IndicatorColor::Red, IndicatorColor::Yellow],
            5000,
            ActionView::NextCycle,
        ),
        transition(s, Event::Probed(Ok(false))).0.phase is Idle,
        transition(s, Event::Probed(Err(e))).0.phase is Idle,
        transition(s, Event::Probed(Ok(false))).1.colors != transition(
            s,
            Event::Probed(Err(e)),
        ).1.colors,
{
    assert(seq![IndicatorColor::Yellow, IndicatorColor::Red][0] != seq![
        IndicatorColor::Red,
        IndicatorColor::Yellow,
    ][0]);
}

/// A sample taken and then a connection that fails: nothing counts as
/// delivered, and the light is left red.
pub proof fn lemma_connect_failure_after_sample(s: TelemetryLoop, m: Sample)
    requires
        s.wf(),
        s.phase is Fetching,
        !s.led_disabled,
    ensures
        ({
            let (s1, _) = transition(s, Event::Fetched(Ok(m)));
            let (s2, st2) = transition(s1, Event::Connected(false));
            &&& s2.delivered == s.delivered
            &&& s2.cycle == s.cycle
            &&& st2.colors.last() == IndicatorColor::Red
            &&& st2.delay_ms == 1000
            &&& st2.action is NextCycle
        }),
{
}

} // verus!
