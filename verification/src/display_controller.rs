//! The refresh coordinator: it starts both sensors, collects their results
//! under a deadline, has them rendered and then keeps the display and the
//! sensors at rest until the next cycle is due.

use crate::bme680_device::{Bme680Data, BmeCommand};
use crate::parameter::Parameters;
use crate::pms7003_device::{PmCommand, PmSensorData};
use crate::DisplayInfo;
use crate::OutOfTurn;
use vstd::prelude::*;

verus! {

/// How long the sensor rail is held off before the rest of the cooldown, in
/// seconds.
pub const COOLDOWN_DWELL_SEC: u32 = 20;

/// Where the coordinator stands in a cycle.
#[derive(Debug, Clone, Copy, PartialEq, Eq, Structural)]
pub enum Phase {
    /// Both sensors were started; results are awaited under the deadline.
    Collecting,
    /// Both readings of this cycle are in; the display is showing them.
    Rendering,
    /// First part of the cooldown: the dwell with the sensor rail off.
    Dwelling,
    /// Second part of the cooldown: the rest of the refresh interval.
    Resting,
}

/// What the coordinator keeps from one step to the next.
#[derive(Debug, Clone, Copy, PartialEq, Eq)]
pub struct CycleState {
    /// The environmental reading that came last and was not rendered yet.
    pub current_data: Option<Bme680Data>,
    /// The particulate reading that came last and was not rendered yet.
    pub current_pmdata: Option<PmSensorData>,
    /// Whether the display is powered.
    pub display_on: bool,
    /// When the display was last rendered, in seconds, if it ever was.
    pub last_render: Option<u64>,
}

/// What the coordinator is told.
#[derive(Debug, Clone, Copy, PartialEq, Eq, Structural)]
pub enum CoordinatorEvent {
    /// The mailbox delivered a message before the deadline.
    Message(DisplayInfo),
    /// The collection deadline passed before a message came.
    Deadline,
    /// The frame is on the display; `at_sec` is the time of that moment.
    Rendered { at_sec: u64 },
    /// The delay that was asked for is over.
    Elapsed,
}

/// What the coordinator asks to be done.
#[derive(Debug, Clone, Copy, PartialEq, Eq, Structural)]
pub enum CoordinatorAction {
    /// Energize (`true`) or de-energize (`false`) the sensor power rail.
    SensorRail(bool),
    /// Signal the environmental task.
    SignalBme(BmeCommand),
    /// Signal the particulate task.
    SignalPm(PmCommand),
    /// Start the collection deadline of this cycle.
    ArmDeadline { secs: u32 },
    /// Write to the log that the sensors did not answer in time.
    LogTimeout,
    /// Wait for a message or for the deadline, whichever comes first; answer
    /// with `CoordinatorEvent::Message` or `CoordinatorEvent::Deadline`.
    AwaitResult,
    /// Power the display on (`true`) or off (`false`).
    DisplayPower(bool),
    /// Show the two readings; answer with `CoordinatorEvent::Rendered`.
    Render(Bme680Data, PmSensorData),
    /// Sleep for `secs` seconds; answer with `CoordinatorEvent::Elapsed`.
    Delay { secs: u32 },
}

/// The refresh coordinator.
#[derive(Debug, Clone, Copy, PartialEq, Eq)]
pub struct RefreshCoordinator {
    pub params: Parameters,
    pub phase: Phase,
    pub cycle: CycleState,
    /// Whether an environmental reading was received in this cycle.
    pub bme_received: bool,
    /// Whether a particulate reading was received in this cycle.
    pub pm_received: bool,
}

/// True when the timing in `params` leaves room for the dwell.
pub open spec fn timing_ok(params: Parameters) -> bool {
    params.screen_display_min_refresh_sec >= COOLDOWN_DWELL_SEC
}

/// The actions on entering the collecting phase.
pub open spec fn collection_start(params: Parameters) -> Seq<CoordinatorAction> {
    seq![
        CoordinatorAction::SensorRail(true),
        CoordinatorAction::SignalPm(PmCommand::On),
        CoordinatorAction::SignalBme(BmeCommand::On),
        CoordinatorAction::ArmDeadline { secs: params.screen_controller_timeout_sec },
        CoordinatorAction::AwaitResult,
    ]
}

/// The actions on entering the cooldown.
pub open spec fn cooldown_start() -> Seq<CoordinatorAction> {
    seq![
        CoordinatorAction::SensorRail(false),
        CoordinatorAction::Delay { secs: COOLDOWN_DWELL_SEC },
    ]
}

/// The time that `action` takes as a delay, in seconds: nothing unless it is
/// one.
pub open spec fn delay_of(action: CoordinatorAction) -> nat {
    match action {
        CoordinatorAction::Delay { secs } => secs as nat,
        _ => 0,
    }
}

/// The total of the delays among `actions`, in seconds.
pub open spec fn waited(actions: Seq<CoordinatorAction>) -> nat
    decreases actions.len(),
{
    if actions.len() == 0 {
        0
    } else {
        waited(actions.drop_last()) + delay_of(actions.last())
    }
}

impl CycleState {
    /// True when both slots hold a reading.
    pub open spec fn complete(self) -> bool {
        self.current_data is Some && self.current_pmdata is Some
    }

    /// The state with the reading of `msg` stored over the one of its kind.
    pub open spec fn stored(self, msg: DisplayInfo) -> CycleState {
        match msg {
            DisplayInfo::Bme680Data(data) => CycleState { current_data: Some(data), ..self },
            DisplayInfo::Pms7003Data(data) => CycleState { current_pmdata: Some(data), ..self },
        }
    }
}

impl RefreshCoordinator {
    /// The invariant of the coordinator: the timing leaves room for the dwell;
    /// the display is powered while rendering and only then; a frame is being
    /// rendered only when both readings were received in this cycle, and
    /// collecting goes on only while one is missing; and a reading that was
    /// received in this cycle is in its slot until the frame is rendered.
    pub open spec fn wf(self) -> bool {
        &&& timing_ok(self.params)
        &&& self.cycle.display_on == (self.phase == Phase::Rendering)
        &&& self.phase == Phase::Rendering ==> self.bme_received && self.pm_received
        &&& self.phase == Phase::Collecting ==> !(self.bme_received && self.pm_received)
        &&& self.phase == Phase::Collecting || self.phase == Phase::Rendering ==> {
            &&& self.bme_received ==> self.cycle.current_data is Some
            &&& self.pm_received ==> self.cycle.current_pmdata is Some
        }
    }

    /// True when `event` answers what the coordinator is waiting for.
    pub open spec fn expects(self, event: CoordinatorEvent) -> bool {
        match (self.phase, event) {
            (Phase::Collecting, CoordinatorEvent::Message(_)) => true,
            (Phase::Collecting, CoordinatorEvent::Deadline) => true,
            (Phase::Rendering, CoordinatorEvent::Rendered { .. }) => true,
            (Phase::Dwelling, CoordinatorEvent::Elapsed) => true,
            (Phase::Resting, CoordinatorEvent::Elapsed) => true,
            _ => false,
        }
    }

    /// True when a reading of each kind was received in this cycle and both
    /// are in their slots.
    pub open spec fn ready(self) -> bool {
        self.bme_received && self.pm_received && self.cycle.complete()
    }

    /// The `Off` signals for the sensors whose reading was not received in this
    /// cycle; the others were told `Off` when their reading came.
    pub open spec fn stop_remaining(self) -> Seq<CoordinatorAction> {
        (if self.pm_received {
            Seq::<CoordinatorAction>::empty()
        } else {
            seq![CoordinatorAction::SignalPm(PmCommand::Off)]
        }) + (if self.bme_received {
            Seq::<CoordinatorAction>::empty()
        } else {
            seq![CoordinatorAction::SignalBme(BmeCommand::Off)]
        })
    }

    /// The coordinator with the reading of `msg` stored and marked as received
    /// in this cycle.
    pub open spec fn received(self, msg: DisplayInfo) -> RefreshCoordinator {
        match msg {
            DisplayInfo::Bme680Data(_) => RefreshCoordinator {
                cycle: self.cycle.stored(msg),
                bme_received: true,
                ..self
            },
            DisplayInfo::Pms7003Data(_) => RefreshCoordinator {
                cycle: self.cycle.stored(msg),
                pm_received: true,
                ..self
            },
        }
    }

    /// The `Off` signal that answers `msg`.
    pub open spec fn stop_sender(msg: DisplayInfo) -> CoordinatorAction {
        match msg {
            DisplayInfo::Bme680Data(_) => CoordinatorAction::SignalBme(BmeCommand::Off),
            DisplayInfo::Pms7003Data(_) => CoordinatorAction::SignalPm(PmCommand::Off),
        }
    }

    /// The `Off` signal for the sensor that did not send `msg`.
    pub open spec fn stop_other(msg: DisplayInfo) -> CoordinatorAction {
        match msg {
            DisplayInfo::Bme680Data(_) => CoordinatorAction::SignalPm(PmCommand::Off),
            DisplayInfo::Pms7003Data(_) => CoordinatorAction::SignalBme(BmeCommand::Off),
        }
    }

    /// The coordinator after `event`; an event out of turn changes nothing.
    pub open spec fn next(self, event: CoordinatorEvent) -> RefreshCoordinator {
        if !self.expects(event) {
            self
        } else {
            match event {
                CoordinatorEvent::Message(msg) => {
                    let got = self.received(msg);
                    if got.ready() {
                        RefreshCoordinator {
                            phase: Phase::Rendering,
                            cycle: CycleState { display_on: true, ..got.cycle },
                            ..got
                        }
                    } else {
                        got
                    }
                },
                CoordinatorEvent::Deadline => RefreshCoordinator { phase: Phase::Dwelling, ..self },
                CoordinatorEvent::Rendered { at_sec } => RefreshCoordinator {
                    phase: Phase::Dwelling,
                    cycle: CycleState {
                        current_data: None,
                        current_pmdata: None,
                        display_on: false,
                        last_render: Some(at_sec),
                    },
                    ..self
                },
                CoordinatorEvent::Elapsed => if self.phase == Phase::Dwelling {
                    RefreshCoordinator { phase: Phase::Resting, ..self }
                } else {
                    RefreshCoordinator {
                        phase: Phase::Collecting,
                        bme_received: false,
                        pm_received: false,
                        ..self
                    }
                },
            }
        }
    }

    /// The actions that `event` asks for, in order; none for an event out of
    /// turn.
    pub open spec fn actions(self, event: CoordinatorEvent) -> Seq<CoordinatorAction> {
        if !self.expects(event) {
            Seq::empty()
        } else {
            match event {
                CoordinatorEvent::Message(msg) => {
                    let got = self.received(msg);
                    if got.ready() {
                        seq![
                            Self::stop_sender(msg),
                            CoordinatorAction::DisplayPower(true),
                            CoordinatorAction::Render(
                                got.cycle.current_data->Some_0,
                                got.cycle.current_pmdata->Some_0,
                            ),
                        ]
                    } else {
                        seq![Self::stop_sender(msg), CoordinatorAction::AwaitResult]
                    }
                },
                CoordinatorEvent::Deadline => seq![CoordinatorAction::LogTimeout]
                    + self.stop_remaining() + cooldown_start(),
                CoordinatorEvent::Rendered { .. } => seq![CoordinatorAction::DisplayPower(false)]
                    + cooldown_start(),
                CoordinatorEvent::Elapsed => if self.phase == Phase::Dwelling {
                    seq![
                        CoordinatorAction::Delay {
                            secs: (self.params.screen_display_min_refresh_sec
                                - COOLDOWN_DWELL_SEC) as u32,
                        },
                    ]
                } else {
                    collection_start(self.params)
                },
            }
        }
    }

    /// The coordinator after `events`, in order.
    pub open spec fn after(self, events: Seq<CoordinatorEvent>) -> RefreshCoordinator
        decreases events.len(),
    {
        if events.len() == 0 {
            self
        } else {
            self.after(events.drop_last()).next(events.last())
        }
    }

    /// Everything that `events` ask for, in order.
    pub open spec fn trace(self, events: Seq<CoordinatorEvent>) -> Seq<CoordinatorAction>
        decreases events.len(),
    {
        if events.len() == 0 {
            Seq::empty()
        } else {
            self.trace(events.drop_last()) + self.after(events.drop_last()).actions(
                events.last(),
            )
        }
    }

    /// The delay that is still to be asked for before the display may be
    /// rendered again.
    pub open spec fn owed(self) -> nat {
        match self.phase {
            Phase::Rendering => self.params.screen_display_min_refresh_sec as nat,
            Phase::Dwelling => (self.params.screen_display_min_refresh_sec
                - COOLDOWN_DWELL_SEC) as nat,
            _ => 0,
        }
    }

    /// The coordinator at boot, in the collecting phase with nothing stored,
    /// together with the actions that start the first cycle.
    pub fn start(params: Parameters) -> (r: (RefreshCoordinator, Vec<CoordinatorAction>))
        requires
            timing_ok(params),
        ensures
            r.0.wf(),
            r.0 == (RefreshCoordinator {
                params,
                phase: Phase::Collecting,
                cycle: CycleState {
                    current_data: None,
                    current_pmdata: None,
                    display_on: false,
                    last_render: None,
                },
                bme_received: false,
                pm_received: false,
            }),
            r.1@ == collection_start(params),
    {
        let coordinator = RefreshCoordinator {
            params,
            phase: Phase::Collecting,
            cycle: CycleState {
                current_data: None,
                current_pmdata: None,
                display_on: false,
                last_render: None,
            },
            bme_received: false,
            pm_received: false,
        };
        (coordinator, begin_collection(&params))
    }

    /// Whether the coordinator meets its invariant.
    pub fn is_well_formed(&self) -> (ok: bool)
        ensures
            ok == self.wf(),
    {
        let rendering = match self.phase {
            Phase::Rendering => true,
            _ => false,
        };
        let collecting = match self.phase {
            Phase::Collecting => true,
            _ => false,
        };
        let both = self.bme_received && self.pm_received;
        let in_cycle = collecting || rendering;
        self.params.screen_display_min_refresh_sec >= COOLDOWN_DWELL_SEC
            && self.cycle.display_on == rendering && (!rendering || both) && (!collecting || !both)
            && (!in_cycle || !self.bme_received || self.cycle.current_data.is_some()) && (!in_cycle
            || !self.pm_received || self.cycle.current_pmdata.is_some())
    }

    /// Whether `params` can be used to start a coordinator.
    pub fn accepts(params: &Parameters) -> (ok: bool)
        ensures
            ok == timing_ok(*params),
    {
        params.screen_display_min_refresh_sec >= COOLDOWN_DWELL_SEC
    }

    fn push_stop_remaining(&self, actions: &mut Vec<CoordinatorAction>)
        ensures
            final(actions)@ == old(actions)@ + self.stop_remaining(),
    {
        if !self.pm_received {
            actions.push(CoordinatorAction::SignalPm(PmCommand::Off));
        }
        if !self.bme_received {
            actions.push(CoordinatorAction::SignalBme(BmeCommand::Off));
        }
        proof {
            assert(actions@ =~= old(actions)@ + self.stop_remaining());
        }
    }
}

fn begin_collection(params: &Parameters) -> (actions: Vec<CoordinatorAction>)
    ensures
        actions@ == collection_start(*params),
{
    let actions = vec![
        CoordinatorAction::SensorRail(true),
        CoordinatorAction::SignalPm(PmCommand::On),
        CoordinatorAction::SignalBme(BmeCommand::On),
        CoordinatorAction::ArmDeadline { secs: params.screen_controller_timeout_sec },
        CoordinatorAction::AwaitResult,
    ];
    proof {
        assert(actions@ =~= collection_start(*params));
    }
    actions
}

fn push_cooldown(actions: &mut Vec<CoordinatorAction>)
    ensures
        final(actions)@ == old(actions)@ + cooldown_start(),
{
    actions.push(CoordinatorAction::SensorRail(false));
    actions.push(CoordinatorAction::Delay { secs: COOLDOWN_DWELL_SEC });
    proof {
        assert(actions@ =~= old(actions)@ + cooldown_start());
    }
}

/// One step of the refresh coordinator.
///
/// While collecting, each message is stored and its sender is told `Off`. Once
/// a reading of each kind was received in this cycle, the display is powered
/// and asked to render the two; a reading that an earlier cycle left in its
/// slot does not count. If the deadline passes first, the timeout is logged,
/// nothing is rendered and nothing stored is touched: the sensors that did not
/// answer are told `Off` and the cooldown begins. After rendering, the display
/// is powered off, the stored readings are cleared and the cooldown begins.
/// The cooldown is the dwell with the sensor rail off, then the rest of the
/// refresh interval; after it the next cycle starts from scratch. An event
/// that the coordinator is not waiting for is refused and changes nothing.
pub fn display_controller(coordinator: &mut RefreshCoordinator, event: CoordinatorEvent) -> (r:
    Result<Vec<CoordinatorAction>, OutOfTurn>)
    requires
        old(coordinator).wf(),
    ensures
        final(coordinator).wf(),
        *final(coordinator) == old(coordinator).next(event),
        old(coordinator).expects(event) ==> r is Ok && r->Ok_0@ == old(coordinator).actions(event),
        !old(coordinator).expects(event) ==> r is Err,
{
    match (coordinator.phase, event) {
        (Phase::Collecting, CoordinatorEvent::Message(msg)) => {
            let mut actions: Vec<CoordinatorAction> = Vec::new();
            match msg {
                DisplayInfo::Bme680Data(data) => {
                    coordinator.cycle.current_data = Some(data);
                    coordinator.bme_received = true;
                    actions.push(CoordinatorAction::SignalBme(BmeCommand::Off));
                },
                DisplayInfo::Pms7003Data(data) => {
                    coordinator.cycle.current_pmdata = Some(data);
                    coordinator.pm_received = true;
                    actions.push(CoordinatorAction::SignalPm(PmCommand::Off));
                },
            }
            let both = coordinator.bme_received && coordinator.pm_received;
            match (both, coordinator.cycle.current_data, coordinator.cycle.current_pmdata) {
                (true, Some(data), Some(pmdata)) => {
                    actions.push(CoordinatorAction::DisplayPower(true));
                    actions.push(CoordinatorAction::Render(data, pmdata));
                    coordinator.cycle.display_on = true;
                    coordinator.phase = Phase::Rendering;
                },
                _ => {
                    actions.push(CoordinatorAction::AwaitResult);
                },
            }
            proof {
                assert(actions@ =~= old(coordinator).actions(event));
            }
            Ok(actions)
        },
        (Phase::Collecting, CoordinatorEvent::Deadline) => {
            let mut actions: Vec<CoordinatorAction> = Vec::new();
            actions.push(CoordinatorAction::LogTimeout);
            coordinator.push_stop_remaining(&mut actions);
            push_cooldown(&mut actions);
            coordinator.phase = Phase::Dwelling;
            proof {
                assert(actions@ =~= old(coordinator).actions(event));
            }
            Ok(actions)
        },
        (Phase::Rendering, CoordinatorEvent::Rendered { at_sec }) => {
            let mut actions: Vec<CoordinatorAction> = Vec::new();
            actions.push(CoordinatorAction::DisplayPower(false));
            push_cooldown(&mut actions);
            coordinator.cycle = CycleState {
                current_data: None,
                current_pmdata: None,
                display_on: false,
                last_render: Some(at_sec),
            };
            coordinator.phase = Phase::Dwelling;
            proof {
                assert(actions@ =~= old(coordinator).actions(event));
            }
            Ok(actions)
        },
        (Phase::Dwelling, CoordinatorEvent::Elapsed) => {
            let rest: u32 = coordinator.params.screen_display_min_refresh_sec - COOLDOWN_DWELL_SEC;
            coordinator.phase = Phase::Resting;
            Ok(vec![CoordinatorAction::Delay { secs: rest }])
        },
        (Phase::Resting, CoordinatorEvent::Elapsed) => {
            coordinator.bme_received = false;
            coordinator.pm_received = false;
            coordinator.phase = Phase::Collecting;
            Ok(begin_collection(&coordinator.params))
        },
        _ => Err(OutOfTurn),
    }
}

proof fn lemma_waited_push(actions: Seq<CoordinatorAction>, action: CoordinatorAction)
    ensures
        waited(actions.push(action)) == waited(actions) + delay_of(action),
{
    assert(actions.push(action).drop_last() =~= actions);
}

proof fn lemma_waited_concat(a: Seq<CoordinatorAction>, b: Seq<CoordinatorAction>)
    ensures
        waited(a + b) == waited(a) + waited(b),
    decreases b.len(),
{
    if b.len() == 0 {
        assert(a + b =~= a);
    } else {
        assert((a + b).drop_last() =~= a + b.drop_last());
        lemma_waited_concat(a, b.drop_last());
    }
}

proof fn lemma_waited_of_parts(c: RefreshCoordinator)
    ensures
        waited(Seq::<CoordinatorAction>::empty()) == 0,
        waited(c.stop_remaining()) == 0,
        waited(cooldown_start()) == COOLDOWN_DWELL_SEC,
        waited(collection_start(c.params)) == 0,
{
    let e = Seq::<CoordinatorAction>::empty();
    let off_pm = CoordinatorAction::SignalPm(PmCommand::Off);
    let off_bme = CoordinatorAction::SignalBme(BmeCommand::Off);
    lemma_waited_push(e, off_pm);
    lemma_waited_push(e, off_bme);
    assert(seq![off_pm] =~= e.push(off_pm));
    assert(seq![off_bme] =~= e.push(off_bme));
    lemma_waited_concat(
        if c.pm_received {
            e
        } else {
            seq![off_pm]
        },
        if c.bme_received {
            e
        } else {
            seq![off_bme]
        },
    );
    let rail_off = CoordinatorAction::SensorRail(false);
    let dwell = CoordinatorAction::Delay { secs: COOLDOWN_DWELL_SEC };
    lemma_waited_push(e, rail_off);
    lemma_waited_push(e.push(rail_off), dwell);
    assert(cooldown_start() =~= e.push(rail_off).push(dwell));
    let a0 = CoordinatorAction::SensorRail(true);
    let a1 = CoordinatorAction::SignalPm(PmCommand::On);
    let a2 = CoordinatorAction::SignalBme(BmeCommand::On);
    let a3 = CoordinatorAction::ArmDeadline { secs: c.params.screen_controller_timeout_sec };
    let a4 = CoordinatorAction::AwaitResult;
    lemma_waited_push(e, a0);
    lemma_waited_push(e.push(a0), a1);
    lemma_waited_push(e.push(a0).push(a1), a2);
    lemma_waited_push(e.push(a0).push(a1).push(a2), a3);
    lemma_waited_push(e.push(a0).push(a1).push(a2).push(a3), a4);
    assert(collection_start(c.params) =~= e.push(a0).push(a1).push(a2).push(a3).push(a4));
}

/// What one step asks to wait for, and what is owed after it, cover what was
/// owed before it; and the invariant is kept.
proof fn lemma_step_pays(c: RefreshCoordinator, event: CoordinatorEvent)
    requires
        c.wf(),
    ensures
        c.next(event).wf(),
        waited(c.actions(event)) + c.next(event).owed() >= c.owed(),
{
    lemma_waited_of_parts(c);
    if c.expects(event) {
        match event {
            CoordinatorEvent::Deadline => {
                lemma_waited_concat(c.stop_remaining(), cooldown_start());
            },
            CoordinatorEvent::Rendered { .. } => {
                let off = CoordinatorAction::DisplayPower(false);
                lemma_waited_push(Seq::empty(), off);
                assert(seq![off] =~= Seq::<CoordinatorAction>::empty().push(off));
                lemma_waited_concat(seq![off], cooldown_start());
            },
            CoordinatorEvent::Elapsed => {
                if c.phase == Phase::Dwelling {
                    let rest = CoordinatorAction::Delay {
                        secs: (c.params.screen_display_min_refresh_sec
                            - COOLDOWN_DWELL_SEC) as u32,
                    };
                    lemma_waited_push(Seq::empty(), rest);
                    assert(seq![rest] =~= Seq::<CoordinatorAction>::empty().push(rest));
                }
            },
            CoordinatorEvent::Message(_) => {},
        }
    }
}

/// Over any run, what was asked to wait for and what is owed at its end cover
/// what was owed at its start; and the invariant is kept.
proof fn lemma_run_pays(c: RefreshCoordinator, events: Seq<CoordinatorEvent>)
    requires
        c.wf(),
    ensures
        c.after(events).wf(),
        waited(c.trace(events)) + c.after(events).owed() >= c.owed(),
    decreases events.len(),
{
    if events.len() > 0 {
        let earlier = events.drop_last();
        lemma_run_pays(c, earlier);
        lemma_step_pays(c.after(earlier), events.last());
        lemma_waited_concat(c.trace(earlier), c.after(earlier).actions(events.last()));
    }
}

/// Nothing is rendered but in the collecting phase.
proof fn lemma_render_only_when_collecting(c: RefreshCoordinator, event: CoordinatorEvent, j: int)
    requires
        0 <= j < c.actions(event).len(),
        c.actions(event)[j] is Render,
    ensures
        c.phase == Phase::Collecting,
        c.expects(event),
{
}

/// The invariant holds after every run of events.
pub proof fn lemma_wf_is_kept(c: RefreshCoordinator, events: Seq<CoordinatorEvent>)
    requires
        c.wf(),
    ensures
        c.after(events).wf(),
{
    lemma_run_pays(c, events);
}

/// Before anything is rendered, the delays asked for since the start of the
/// run add up to at least what was owed at its start.
pub proof fn lemma_render_waits_for_owed(c: RefreshCoordinator, events: Seq<CoordinatorEvent>, i: int)
    requires
        c.wf(),
        0 <= i < c.trace(events).len(),
        c.trace(events)[i] is Render,
    ensures
        waited(c.trace(events).take(i)) >= c.owed(),
    decreases events.len(),
{
    if events.len() > 0 {
        let earlier = events.drop_last();
        let before = c.trace(earlier);
        let step = c.after(earlier).actions(events.last());
        if i < before.len() {
            assert(c.trace(events).take(i) =~= before.take(i));
            lemma_render_waits_for_owed(c, earlier, i);
        } else {
            let j = i - before.len();
            lemma_run_pays(c, earlier);
            lemma_render_only_when_collecting(c.after(earlier), events.last(), j);
            assert(c.trace(events).take(i) =~= before + step.take(j));
            lemma_waited_concat(before, step.take(j));
        }
    }
}

/// Cooldown spacing: once a frame is being rendered, whatever happens next and
/// however fast the sensors answer, nothing is rendered again before delays of
/// at least the minimum refresh interval in total have been asked for and
/// waited out.
pub proof fn lemma_renders_are_spaced(c: RefreshCoordinator, events: Seq<CoordinatorEvent>, i: int)
    requires
        c.wf(),
        c.phase == Phase::Rendering,
        0 <= i < c.trace(events).len(),
        c.trace(events)[i] is Render,
    ensures
        waited(c.trace(events).take(i)) >= c.params.screen_display_min_refresh_sec,
{
    lemma_render_waits_for_owed(c, events, i);
}

/// The cooldown is exactly the minimum refresh interval: after a frame was
/// rendered, the dwell and the rest that follow it add up to that interval,
/// and only then does the next cycle start.
pub proof fn lemma_cooldown_is_full(c: RefreshCoordinator, at_sec: u64)
    requires
        c.wf(),
        c.phase == Phase::Rendering,
    ensures
        ({
            let rendered = CoordinatorEvent::Rendered { at_sec };
            let dwelling = c.next(rendered);
            let resting = dwelling.next(CoordinatorEvent::Elapsed);
            let collecting = resting.next(CoordinatorEvent::Elapsed);
            &&& dwelling.phase == Phase::Dwelling
            &&& !dwelling.cycle.display_on
            &&& dwelling.cycle.current_data is None
            &&& dwelling.cycle.current_pmdata is None
            &&& dwelling.cycle.last_render == Some(at_sec)
            &&& resting.phase == Phase::Resting
            &&& collecting.phase == Phase::Collecting
            &&& waited(c.actions(rendered)) + waited(dwelling.actions(CoordinatorEvent::Elapsed))
                == c.params.screen_display_min_refresh_sec
            &&& resting.actions(CoordinatorEvent::Elapsed) == collection_start(c.params)
        }),
{
    let rendered = CoordinatorEvent::Rendered { at_sec };
    let dwelling = c.next(rendered);
    lemma_waited_of_parts(c);
    let off = CoordinatorAction::DisplayPower(false);
    lemma_waited_push(Seq::empty(), off);
    assert(seq![off] =~= Seq::<CoordinatorAction>::empty().push(off));
    lemma_waited_concat(seq![off], cooldown_start());
    let rest = CoordinatorAction::Delay {
        secs: (c.params.screen_display_min_refresh_sec - COOLDOWN_DWELL_SEC) as u32,
    };
    lemma_waited_push(Seq::empty(), rest);
    assert(seq![rest] =~= Seq::<CoordinatorAction>::empty().push(rest));
}

/// A cycle starts from scratch: when the cooldown is over, both sensors are
/// started again and no reading counts as received, whatever the slots hold.
pub proof fn lemma_cycle_starts_afresh(c: RefreshCoordinator)
    requires
        c.wf(),
        c.phase == Phase::Resting,
    ensures
        c.actions(CoordinatorEvent::Elapsed) == collection_start(c.params),
        c.next(CoordinatorEvent::Elapsed).phase == Phase::Collecting,
        !c.next(CoordinatorEvent::Elapsed).bme_received,
        !c.next(CoordinatorEvent::Elapsed).pm_received,
        c.next(CoordinatorEvent::Elapsed).cycle == c.cycle,
{
}

/// The deadline step: whenever the deadline passes while collecting, the
/// timeout is logged, nothing is rendered, nothing stored is touched and the
/// cooldown begins.
pub proof fn lemma_deadline_renders_nothing(c: RefreshCoordinator)
    requires
        c.wf(),
        c.phase == Phase::Collecting,
    ensures
        ({
            let asked = c.actions(CoordinatorEvent::Deadline);
            &&& asked == seq![CoordinatorAction::LogTimeout] + c.stop_remaining() + cooldown_start()
            &&& forall|j: int|
                0 <= j < asked.len() ==> !(#[trigger] asked[j] is Render) && asked[j]
                    != CoordinatorAction::DisplayPower(true)
            &&& c.next(CoordinatorEvent::Deadline).cycle == c.cycle
            &&& c.next(CoordinatorEvent::Deadline).phase == Phase::Dwelling
        }),
{
}

/// The timeout path over a whole cycle. From the start of a cycle, whatever
/// the slots hold: when one reading comes and then the deadline passes, the
/// reading is stored and only its sender is told `Off` at that step; at the
/// deadline the other sensor is told `Off`; no step powers the display or
/// renders; the slot of the reading that came holds it and the other slot
/// holds what it held before; and the next cycle starts after the dwell and
/// the rest, which add up to the minimum refresh interval.
pub proof fn lemma_timeout_path(c: RefreshCoordinator, msg: DisplayInfo)
    requires
        c.wf(),
        c.phase == Phase::Collecting,
        !c.bme_received,
        !c.pm_received,
    ensures
        ({
            let first = c.actions(CoordinatorEvent::Message(msg));
            let waiting = c.next(CoordinatorEvent::Message(msg));
            let asked = waiting.actions(CoordinatorEvent::Deadline);
            let dwelling = waiting.next(CoordinatorEvent::Deadline);
            let resting = dwelling.next(CoordinatorEvent::Elapsed);
            let collecting = resting.next(CoordinatorEvent::Elapsed);
            &&& first == seq![RefreshCoordinator::stop_sender(msg), CoordinatorAction::AwaitResult]
            &&& waiting.phase == Phase::Collecting
            &&& waiting.cycle == c.cycle.stored(msg)
            &&& asked == seq![CoordinatorAction::LogTimeout, RefreshCoordinator::stop_other(msg)]
                + cooldown_start()
            &&& dwelling.phase == Phase::Dwelling
            &&& dwelling.cycle == c.cycle.stored(msg)
            &&& !dwelling.cycle.display_on
            &&& resting.phase == Phase::Resting
            &&& waited(asked) + waited(dwelling.actions(CoordinatorEvent::Elapsed))
                == c.params.screen_display_min_refresh_sec
            &&& resting.actions(CoordinatorEvent::Elapsed) == collection_start(c.params)
            &&& collecting.phase == Phase::Collecting
            &&& collecting.cycle == c.cycle.stored(msg)
            &&& !collecting.bme_received && !collecting.pm_received
        }),
{
    let waiting = c.next(CoordinatorEvent::Message(msg));
    let asked = waiting.actions(CoordinatorEvent::Deadline);
    assert(asked =~= seq![CoordinatorAction::LogTimeout, RefreshCoordinator::stop_other(msg)]
        + cooldown_start());
    lemma_waited_of_parts(waiting);
    let log = CoordinatorAction::LogTimeout;
    lemma_waited_push(Seq::empty(), log);
    assert(seq![log] =~= Seq::<CoordinatorAction>::empty().push(log));
    lemma_waited_concat(seq![log], waiting.stop_remaining());
    lemma_waited_concat(seq![log] + waiting.stop_remaining(), cooldown_start());
    let rest = CoordinatorAction::Delay {
        secs: (c.params.screen_display_min_refresh_sec - COOLDOWN_DWELL_SEC) as u32,
    };
    lemma_waited_push(Seq::empty(), rest);
    assert(seq![rest] =~= Seq::<CoordinatorAction>::empty().push(rest));
}

/// A full cycle. From the start of a cycle, whatever the slots hold: when the
/// two readings of this cycle come, in either order, the first is stored and
/// its sender told `Off`; the second is stored, its sender told `Off`, the
/// display powered and asked to render these two readings; once that is done
/// the display is powered off, both slots are empty and the cooldown begins.
pub proof fn lemma_full_cycle(
    c: RefreshCoordinator,
    data: Bme680Data,
    pmdata: PmSensorData,
    at_sec: u64,
)
    requires
        c.wf(),
        c.phase == Phase::Collecting,
        !c.bme_received,
        !c.pm_received,
    ensures
        ({
            let env = CoordinatorEvent::Message(DisplayInfo::Bme680Data(data));
            let pm = CoordinatorEvent::Message(DisplayInfo::Pms7003Data(pmdata));
            let off_env = CoordinatorAction::SignalBme(BmeCommand::Off);
            let off_pm = CoordinatorAction::SignalPm(PmCommand::Off);
            let show = seq![
                CoordinatorAction::DisplayPower(true),
                CoordinatorAction::Render(data, pmdata),
            ];
            let done = CoordinatorEvent::Rendered { at_sec };
            &&& c.actions(env) == seq![off_env, CoordinatorAction::AwaitResult]
            &&& c.next(env).actions(pm) == seq![off_pm] + show
            &&& c.actions(pm) == seq![off_pm, CoordinatorAction::AwaitResult]
            &&& c.next(pm).actions(env) == seq![off_env] + show
            &&& c.next(env).next(pm) == c.next(pm).next(env)
            &&& c.next(env).next(pm).phase == Phase::Rendering
            &&& c.next(env).next(pm).actions(done) == seq![CoordinatorAction::DisplayPower(false)]
                + cooldown_start()
            &&& c.next(env).next(pm).next(done).phase == Phase::Dwelling
            &&& c.next(env).next(pm).next(done).cycle.current_data is None
            &&& c.next(env).next(pm).next(done).cycle.current_pmdata is None
            &&& !c.next(env).next(pm).next(done).cycle.display_on
        }),
{
    let env = CoordinatorEvent::Message(DisplayInfo::Bme680Data(data));
    let pm = CoordinatorEvent::Message(DisplayInfo::Pms7003Data(pmdata));
    let off_env = CoordinatorAction::SignalBme(BmeCommand::Off);
    let off_pm = CoordinatorAction::SignalPm(PmCommand::Off);
    let show = seq![
        CoordinatorAction::DisplayPower(true),
        CoordinatorAction::Render(data, pmdata),
    ];
    assert(c.next(env).actions(pm) =~= seq![off_pm] + show);
    assert(c.next(pm).actions(env) =~= seq![off_env] + show);
}

/// The handshake: while collecting, a frame is asked to be rendered at the
/// very step that brings the second reading of this cycle, and at no other;
/// by then each sensor was told `Off` when its reading came.
pub proof fn lemma_render_needs_both_of_this_cycle(c: RefreshCoordinator, msg: DisplayInfo, j: int)
    requires
        c.wf(),
        0 <= j < c.actions(CoordinatorEvent::Message(msg)).len(),
    ensures
        ({
            let asked = c.actions(CoordinatorEvent::Message(msg));
            let renders = asked[j] is Render || asked[j] == CoordinatorAction::DisplayPower(true);
            &&& renders ==> c.received(msg).bme_received && c.received(msg).pm_received
            &&& renders ==> c.bme_received || c.pm_received
            &&& asked[0] == RefreshCoordinator::stop_sender(msg)
            &&& c.received(msg).bme_received && c.received(msg).pm_received ==> asked.last()
                == CoordinatorAction::Render(
                c.received(msg).cycle.current_data->Some_0,
                c.received(msg).cycle.current_pmdata->Some_0,
            )
        }),
{
}

} // verus!
