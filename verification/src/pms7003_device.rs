//! The particulate-matter sensor: its samples, the averaging filter, the
//! faults of its serial protocol and the task that drives it.

use crate::DisplayInfo;
use crate::OutOfTurn;
use vstd::prelude::*;

verus! {

/// The number of samples that one published reading is the mean of.
pub const AVERAGING_WINDOW: usize = 5;

/// `pms_7003::OutputFrame`: one frame as the sensor driver decoded it.
#[verifier::external_type_specification]
pub struct ExOutputFrame(pms_7003::OutputFrame);

/// `pms_7003::Error`: the ways in which a transaction with the sensor fails.
#[verifier::external_type_specification]
pub struct ExDriverError(pms_7003::Error);

/// Particle counts of one frame, or the per-channel mean of a window of frames.
#[derive(Debug, Clone, Copy, PartialEq, Eq, Structural)]
pub struct PmSensorData {
    pub pm1_0: u16,
    pub pm2_5: u16,
    pub pm10: u16,
    pub pm1_0_atm: u16,
    pub pm2_5_atm: u16,
    pub pm10_atm: u16,
}

/// One of the six counts that a sample carries.
#[derive(Debug, Clone, Copy, PartialEq, Eq, Structural)]
pub enum Channel {
    Pm1_0,
    Pm2_5,
    Pm10,
    Pm1_0Atm,
    Pm2_5Atm,
    Pm10Atm,
}

impl Default for PmSensorData {
    fn default() -> (r: PmSensorData)
        ensures
            r == (PmSensorData {
                pm1_0: 0,
                pm2_5: 0,
                pm10: 0,
                pm1_0_atm: 0,
                pm2_5_atm: 0,
                pm10_atm: 0,
            }),
    {
        PmSensorData { pm1_0: 0, pm2_5: 0, pm10: 0, pm1_0_atm: 0, pm2_5_atm: 0, pm10_atm: 0 }
    }
}

impl PmSensorData {
    /// The count that this sample carries on `channel`.
    pub open spec fn channel(self, channel: Channel) -> u16 {
        match channel {
            Channel::Pm1_0 => self.pm1_0,
            Channel::Pm2_5 => self.pm2_5,
            Channel::Pm10 => self.pm10,
            Channel::Pm1_0Atm => self.pm1_0_atm,
            Channel::Pm2_5Atm => self.pm2_5_atm,
            Channel::Pm10Atm => self.pm10_atm,
        }
    }

    /// The six particle counts of a decoded frame.
    pub fn copy_from_frame(frame: &pms_7003::OutputFrame) -> (r: PmSensorData)
        ensures
            r.pm1_0 == frame.pm1_0,
            r.pm2_5 == frame.pm2_5,
            r.pm10 == frame.pm10,
            r.pm1_0_atm == frame.pm1_0_atm,
            r.pm2_5_atm == frame.pm2_5_atm,
            r.pm10_atm == frame.pm10_atm,
    {
        PmSensorData {
            pm1_0: frame.pm1_0,
            pm2_5: frame.pm2_5,
            pm10: frame.pm10,
            pm1_0_atm: frame.pm1_0_atm,
            pm2_5_atm: frame.pm2_5_atm,
            pm10_atm: frame.pm10_atm,
        }
    }
}

/// The sum of one channel over `samples`.
pub open spec fn channel_sum(samples: Seq<PmSensorData>, channel: Channel) -> int
    decreases samples.len(),
{
    if samples.len() == 0 {
        0
    } else {
        channel_sum(samples.drop_last(), channel) + samples.last().channel(channel)
    }
}

/// The mean of one channel over a full window, rounded toward zero.
pub open spec fn channel_mean(samples: Seq<PmSensorData>, channel: Channel) -> int {
    channel_sum(samples, channel) / (AVERAGING_WINDOW as int)
}

/// The reading that a full window of samples is averaged to.
pub open spec fn mean_of(samples: Seq<PmSensorData>) -> PmSensorData {
    PmSensorData {
        pm1_0: channel_mean(samples, Channel::Pm1_0) as u16,
        pm2_5: channel_mean(samples, Channel::Pm2_5) as u16,
        pm10: channel_mean(samples, Channel::Pm10) as u16,
        pm1_0_atm: channel_mean(samples, Channel::Pm1_0Atm) as u16,
        pm2_5_atm: channel_mean(samples, Channel::Pm2_5Atm) as u16,
        pm10_atm: channel_mean(samples, Channel::Pm10Atm) as u16,
    }
}

/// The averaging filter on a window of five samples: each channel of the mean
/// is the sum of that channel's five counts, divided by five and rounded down,
/// and it fits the sixteen bits of a count.
pub proof fn lemma_mean_is_floor_of_sum(samples: Seq<PmSensorData>, channel: Channel)
    requires
        samples.len() == 5,
    ensures
        channel_sum(samples, channel) == samples[0].channel(channel) + samples[1].channel(channel)
            + samples[2].channel(channel) + samples[3].channel(channel) + samples[4].channel(
            channel,
        ),
        0 <= channel_sum(samples, channel) <= 5 * 65535,
        0 <= channel_mean(samples, channel) <= 65535,
        mean_of(samples).channel(channel) == channel_sum(samples, channel) / 5,
{
    let s4 = samples.drop_last();
    let s3 = s4.drop_last();
    let s2 = s3.drop_last();
    let s1 = s2.drop_last();
    let s0 = s1.drop_last();
    assert(s0.len() == 0);
    assert(channel_sum(s1, channel) == channel_sum(s0, channel) + s1.last().channel(channel));
    assert(channel_sum(s2, channel) == channel_sum(s1, channel) + s2.last().channel(channel));
    assert(channel_sum(s3, channel) == channel_sum(s2, channel) + s3.last().channel(channel));
    assert(channel_sum(s4, channel) == channel_sum(s3, channel) + s4.last().channel(channel));
}

proof fn lemma_channel_sum_step(samples: Seq<PmSensorData>, i: int, channel: Channel)
    requires
        0 <= i < samples.len(),
    ensures
        channel_sum(samples.take(i + 1), channel) == channel_sum(samples.take(i), channel)
            + samples[i].channel(channel),
        0 <= channel_sum(samples.take(i), channel) <= i * 65535,
    decreases i,
{
    assert(samples.take(i + 1).drop_last() =~= samples.take(i));
    if i > 0 {
        lemma_channel_sum_step(samples, i - 1, channel);
    }
}

/// The averaging filter: the per-channel mean of a window of five samples,
/// summed in 32 bits and rounded toward zero.
pub fn averaging_filter(samples: &[PmSensorData; 5]) -> (r: PmSensorData)
    ensures
        r.pm1_0 == channel_mean(samples@, Channel::Pm1_0),
        r.pm2_5 == channel_mean(samples@, Channel::Pm2_5),
        r.pm10 == channel_mean(samples@, Channel::Pm10),
        r.pm1_0_atm == channel_mean(samples@, Channel::Pm1_0Atm),
        r.pm2_5_atm == channel_mean(samples@, Channel::Pm2_5Atm),
        r.pm10_atm == channel_mean(samples@, Channel::Pm10Atm),
{
    let mut pm1_0: u32 = 0;
    let mut pm2_5: u32 = 0;
    let mut pm10: u32 = 0;
    let mut pm1_0_atm: u32 = 0;
    let mut pm2_5_atm: u32 = 0;
    let mut pm10_atm: u32 = 0;
    let mut i: usize = 0;
    while i < 5
        invariant
            i <= 5,
            samples@.len() == 5,
            pm1_0 == channel_sum(samples@.take(i as int), Channel::Pm1_0),
            pm2_5 == channel_sum(samples@.take(i as int), Channel::Pm2_5),
            pm10 == channel_sum(samples@.take(i as int), Channel::Pm10),
            pm1_0_atm == channel_sum(samples@.take(i as int), Channel::Pm1_0Atm),
            pm2_5_atm == channel_sum(samples@.take(i as int), Channel::Pm2_5Atm),
            pm10_atm == channel_sum(samples@.take(i as int), Channel::Pm10Atm),
        decreases 5 - i,
    {
        proof {
            lemma_channel_sum_step(samples@, i as int, Channel::Pm1_0);
            lemma_channel_sum_step(samples@, i as int, Channel::Pm2_5);
            lemma_channel_sum_step(samples@, i as int, Channel::Pm10);
            lemma_channel_sum_step(samples@, i as int, Channel::Pm1_0Atm);
            lemma_channel_sum_step(samples@, i as int, Channel::Pm2_5Atm);
            lemma_channel_sum_step(samples@, i as int, Channel::Pm10Atm);
        }
        let sample = samples[i];
        pm1_0 = pm1_0 + sample.pm1_0 as u32;
        pm2_5 = pm2_5 + sample.pm2_5 as u32;
        pm10 = pm10 + sample.pm10 as u32;
        pm1_0_atm = pm1_0_atm + sample.pm1_0_atm as u32;
        pm2_5_atm = pm2_5_atm + sample.pm2_5_atm as u32;
        pm10_atm = pm10_atm + sample.pm10_atm as u32;
        i = i + 1;
    }
    proof {
        lemma_channel_sum_step(samples@, 4, Channel::Pm1_0);
        lemma_channel_sum_step(samples@, 4, Channel::Pm2_5);
        lemma_channel_sum_step(samples@, 4, Channel::Pm10);
        lemma_channel_sum_step(samples@, 4, Channel::Pm1_0Atm);
        lemma_channel_sum_step(samples@, 4, Channel::Pm2_5Atm);
        lemma_channel_sum_step(samples@, 4, Channel::Pm10Atm);
    }
    PmSensorData {
        pm1_0: (pm1_0 / 5) as u16,
        pm2_5: (pm2_5 / 5) as u16,
        pm10: (pm10 / 5) as u16,
        pm1_0_atm: (pm1_0_atm / 5) as u16,
        pm2_5_atm: (pm2_5_atm / 5) as u16,
        pm10_atm: (pm10_atm / 5) as u16,
    }
}

/// The command that starts or stops the particulate sensor.
#[derive(Debug, Clone, Copy, PartialEq, Eq, Structural)]
pub enum PmCommand {
    On,
    Off,
}

/// The ways in which a transaction with the particulate sensor fails.
#[derive(Debug, Clone, Copy, PartialEq, Eq, Structural)]
pub enum ProtocolFault {
    SendFailed,
    ReadFailed,
    ChecksumError,
    /// The sensor answered with something other than the acknowledgment that
    /// was asked for: a data frame that was already on its way.
    IncorrectResponse,
    NoResponse,
}

/// The fault that stands for a driver error.
pub open spec fn fault_of(error: pms_7003::Error) -> ProtocolFault {
    match error {
        pms_7003::Error::SendFailed => ProtocolFault::SendFailed,
        pms_7003::Error::ReadFailed => ProtocolFault::ReadFailed,
        pms_7003::Error::ChecksumError => ProtocolFault::ChecksumError,
        pms_7003::Error::IncorrectResponse => ProtocolFault::IncorrectResponse,
        pms_7003::Error::NoResponse => ProtocolFault::NoResponse,
    }
}

impl ProtocolFault {
    /// Maps the driver's error to the fault that stands for it.
    pub fn from_driver(error: &pms_7003::Error) -> (fault: ProtocolFault)
        ensures
            fault == fault_of(*error),
    {
        match error {
            pms_7003::Error::SendFailed => ProtocolFault::SendFailed,
            pms_7003::Error::ReadFailed => ProtocolFault::ReadFailed,
            pms_7003::Error::ChecksumError => ProtocolFault::ChecksumError,
            pms_7003::Error::IncorrectResponse => ProtocolFault::IncorrectResponse,
            pms_7003::Error::NoResponse => ProtocolFault::NoResponse,
        }
    }
}

/// What to do after one attempt to put the sensor to sleep.
#[derive(Debug, Clone, Copy, PartialEq, Eq, Structural)]
pub enum SleepVerdict {
    /// The sensor acknowledged: it sleeps.
    Done,
    /// The acknowledgment lost a race with a data frame: send the command again.
    Retry,
    /// The attempt failed in another way: give up until the next cycle.
    Abandon,
}

/// The retry policy of the sleep handshake.
pub open spec fn verdict_of(reply: Result<(), ProtocolFault>) -> SleepVerdict {
    match reply {
        Ok(_) => SleepVerdict::Done,
        Err(ProtocolFault::IncorrectResponse) => SleepVerdict::Retry,
        Err(_) => SleepVerdict::Abandon,
    }
}

/// Judges the reply to a sleep command: success ends the handshake, an
/// incorrect response asks for another attempt, any other fault abandons it.
pub fn sleep_verdict(reply: Result<(), ProtocolFault>) -> (verdict: SleepVerdict)
    ensures
        verdict == verdict_of(reply),
{
    match reply {
        Ok(_) => SleepVerdict::Done,
        Err(ProtocolFault::IncorrectResponse) => SleepVerdict::Retry,
        Err(_) => SleepVerdict::Abandon,
    }
}

/// How long the reset line is held low, and then high, on a cold start.
pub const RESET_PULSE_MS: u32 = 200;

/// Where the particulate task stands.
#[derive(Debug, Clone, Copy, PartialEq, Eq, Structural)]
pub enum PmTaskState {
    /// Waiting for a command.
    Idle,
    /// Bringing the sensor up: the reset pulse on a cold start, then the wake
    /// command.
    Waking,
    /// Reading frames until the window is full.
    Sampling,
    /// Putting the sensor to sleep.
    Sleeping,
}

/// What the particulate task is told.
#[derive(Debug, Clone, Copy)]
pub enum PmEvent {
    /// The command signal delivered a command.
    Command(PmCommand),
    /// The reset pulse is over.
    ResetDone,
    /// The sensor's answer to the wake command.
    WakeReply(Result<(), ProtocolFault>),
    /// The outcome of reading one frame.
    Frame(Result<PmSensorData, ProtocolFault>),
    /// The sensor's answer to the sleep command.
    SleepReply(Result<(), ProtocolFault>),
}

/// A fault of the particulate sensor that is worth a line in the log.
#[derive(Debug, Clone, Copy, PartialEq, Eq, Structural)]
pub enum PmNote {
    /// The wake command failed; sampling goes on, the sensor may be awake.
    WakeFailed(ProtocolFault),
    /// A frame failed to read; it is read again.
    FrameFailed(ProtocolFault),
    /// The sleep command failed in a way that a retry does not mend.
    SleepAbandoned(ProtocolFault),
}

/// What the particulate task asks to be done.
#[derive(Debug, Clone, Copy, PartialEq, Eq, Structural)]
pub enum PmAction {
    /// Wait on the command signal; answer with `PmEvent::Command`.
    AwaitCommand,
    /// Hold the reset line low, then high; answer with `PmEvent::ResetDone`.
    PulseReset { low_ms: u32, high_ms: u32 },
    /// Send the wake command; answer with `PmEvent::WakeReply`.
    Wake,
    /// Read one frame; answer with `PmEvent::Frame`.
    ReadFrame,
    /// Send the message on the result mailbox.
    Publish(DisplayInfo),
    /// Send the sleep command; answer with `PmEvent::SleepReply`.
    Sleep,
    /// Write the note to the log.
    Log(PmNote),
}

/// What ends a sleep handshake on `reply`: a note in the log if the attempt is
/// abandoned, and the wait for the next command.
pub open spec fn sleep_closing(reply: Result<(), ProtocolFault>) -> Seq<PmAction> {
    match reply {
        Ok(_) => seq![PmAction::AwaitCommand],
        Err(fault) => seq![
            PmAction::Log(PmNote::SleepAbandoned(fault)),
            PmAction::AwaitCommand,
        ],
    }
}

/// The particulate acquisition task.
#[derive(Debug, Clone, Copy)]
pub struct PmTask {
    pub state: PmTaskState,
    /// True until the sensor has been reset once.
    pub cold: bool,
    /// The samples of the window that is being filled, in its first `filled`
    /// places.
    pub window: [PmSensorData; 5],
    pub filled: usize,
}

/// What the behaviour of the particulate task depends on.
pub struct PmModel {
    pub state: PmTaskState,
    pub cold: bool,
    /// The samples collected for the window that is being filled.
    pub samples: Seq<PmSensorData>,
}

impl PmModel {
    /// True when `event` answers what the task is waiting for.
    pub open spec fn expects(self, event: PmEvent) -> bool {
        match (self.state, event) {
            (PmTaskState::Idle, PmEvent::Command(_)) => true,
            (PmTaskState::Waking, PmEvent::ResetDone) => self.cold,
            (PmTaskState::Waking, PmEvent::WakeReply(_)) => !self.cold,
            (PmTaskState::Sampling, PmEvent::Frame(_)) => true,
            (PmTaskState::Sleeping, PmEvent::SleepReply(_)) => true,
            _ => false,
        }
    }

    /// The task after `event`; an event out of turn changes nothing.
    pub open spec fn next(self, event: PmEvent) -> PmModel {
        if !self.expects(event) {
            self
        } else {
            match event {
                PmEvent::Command(PmCommand::On) => PmModel { state: PmTaskState::Waking, ..self },
                PmEvent::Command(PmCommand::Off) => PmModel {
                    state: PmTaskState::Sleeping,
                    ..self
                },
                PmEvent::ResetDone => PmModel { cold: false, ..self },
                PmEvent::WakeReply(_) => PmModel {
                    state: PmTaskState::Sampling,
                    samples: Seq::empty(),
                    ..self
                },
                PmEvent::Frame(Ok(sample)) => if self.samples.len() + 1 < AVERAGING_WINDOW {
                    PmModel { samples: self.samples.push(sample), ..self }
                } else {
                    PmModel { state: PmTaskState::Idle, samples: Seq::empty(), ..self }
                },
                PmEvent::Frame(Err(_)) => self,
                PmEvent::SleepReply(reply) => if verdict_of(reply) == SleepVerdict::Retry {
                    self
                } else {
                    PmModel { state: PmTaskState::Idle, ..self }
                },
            }
        }
    }

    /// The actions that `event` asks for, in order; none for an event out of
    /// turn.
    pub open spec fn actions(self, event: PmEvent) -> Seq<PmAction> {
        if !self.expects(event) {
            Seq::empty()
        } else {
            match event {
                PmEvent::Command(PmCommand::On) => if self.cold {
                    seq![PmAction::PulseReset { low_ms: RESET_PULSE_MS, high_ms: RESET_PULSE_MS }]
                } else {
                    seq![PmAction::Wake]
                },
                PmEvent::Command(PmCommand::Off) => seq![PmAction::Sleep],
                PmEvent::ResetDone => seq![PmAction::Wake],
                PmEvent::WakeReply(Ok(_)) => seq![PmAction::ReadFrame],
                PmEvent::WakeReply(Err(fault)) => seq![
                    PmAction::Log(PmNote::WakeFailed(fault)),
                    PmAction::ReadFrame,
                ],
                PmEvent::Frame(Ok(sample)) => if self.samples.len() + 1 < AVERAGING_WINDOW {
                    seq![PmAction::ReadFrame]
                } else {
                    seq![
                        PmAction::Publish(
                            DisplayInfo::Pms7003Data(mean_of(self.samples.push(sample))),
                        ),
                        PmAction::AwaitCommand,
                    ]
                },
                PmEvent::Frame(Err(fault)) => seq![
                    PmAction::Log(PmNote::FrameFailed(fault)),
                    PmAction::ReadFrame,
                ],
                PmEvent::SleepReply(reply) => if verdict_of(reply) == SleepVerdict::Retry {
                    seq![PmAction::Sleep]
                } else {
                    sleep_closing(reply)
                },
            }
        }
    }

    /// The task after `events`, in order.
    pub open spec fn after(self, events: Seq<PmEvent>) -> PmModel
        decreases events.len(),
    {
        if events.len() == 0 {
            self
        } else {
            self.after(events.drop_last()).next(events.last())
        }
    }

    /// Everything that `events` ask for, in order.
    pub open spec fn trace(self, events: Seq<PmEvent>) -> Seq<PmAction>
        decreases events.len(),
    {
        if events.len() == 0 {
            Seq::empty()
        } else {
            self.trace(events.drop_last()) + self.after(events.drop_last()).actions(
                events.last(),
            )
        }
    }
}

impl PmTask {
    /// True when the window has room for the next sample.
    pub open spec fn wf(&self) -> bool {
        self.filled < AVERAGING_WINDOW
    }

    /// What the behaviour of the task depends on.
    pub open spec fn model(&self) -> PmModel {
        PmModel {
            state: self.state,
            cold: self.cold,
            samples: self.window@.take(self.filled as int),
        }
    }

    /// Whether the window has room for the next sample.
    pub fn is_well_formed(&self) -> (ok: bool)
        ensures
            ok == self.wf(),
    {
        self.filled < AVERAGING_WINDOW
    }

    /// The task at boot, with its first action: the wait for a command.
    pub fn start() -> (r: (PmTask, Vec<PmAction>))
        ensures
            r.0.wf(),
            r.0.model() == (PmModel {
                state: PmTaskState::Idle,
                cold: true,
                samples: Seq::empty(),
            }),
            r.1@ == seq![PmAction::AwaitCommand],
    {
        (PmTask::new(), vec![PmAction::AwaitCommand])
    }

    /// An idle task with an empty window, whose sensor was not reset yet.
    pub fn new() -> (task: PmTask)
        ensures
            task.wf(),
            task.model() == (PmModel {
                state: PmTaskState::Idle,
                cold: true,
                samples: Seq::empty(),
            }),
    {
        let zero = PmSensorData {
            pm1_0: 0,
            pm2_5: 0,
            pm10: 0,
            pm1_0_atm: 0,
            pm2_5_atm: 0,
            pm10_atm: 0,
        };
        let task = PmTask {
            state: PmTaskState::Idle,
            cold: true,
            window: [zero, zero, zero, zero, zero],
            filled: 0,
        };
        proof {
            assert(task.window@.take(0) =~= Seq::<PmSensorData>::empty());
        }
        task
    }
}

/// One step of the particulate task. `On` brings the sensor up, with a reset
/// pulse the first time, and samples until five frames were read; their mean
/// is published. A wake command that fails is noted in the log and sampling
/// goes on. A frame that fails to read is noted, read again and counts for
/// nothing. `Off` sends the sleep command, again after each incorrect
/// response; any other fault is noted once and the attempt is given up.
/// An event that the task is not waiting for is refused and changes nothing.
pub fn pm25_controller(task: &mut PmTask, event: PmEvent) -> (r: Result<Vec<PmAction>, OutOfTurn>)
    requires
        old(task).wf(),
    ensures
        final(task).wf(),
        final(task).model() == old(task).model().next(event),
        old(task).model().expects(event) ==> r is Ok && r->Ok_0@ == old(task).model().actions(
            event,
        ),
        !old(task).model().expects(event) ==> r is Err && *final(task) == *old(task),
{
    match (task.state, event) {
        (PmTaskState::Idle, PmEvent::Command(PmCommand::On)) => {
            task.state = PmTaskState::Waking;
            if task.cold {
                Ok(vec![PmAction::PulseReset { low_ms: RESET_PULSE_MS, high_ms: RESET_PULSE_MS }])
            } else {
                Ok(vec![PmAction::Wake])
            }
        },
        (PmTaskState::Idle, PmEvent::Command(PmCommand::Off)) => {
            task.state = PmTaskState::Sleeping;
            Ok(vec![PmAction::Sleep])
        },
        (PmTaskState::Waking, PmEvent::ResetDone) => {
            if task.cold {
                task.cold = false;
                Ok(vec![PmAction::Wake])
            } else {
                Err(OutOfTurn)
            }
        },
        (PmTaskState::Waking, PmEvent::WakeReply(reply)) => {
            if task.cold {
                Err(OutOfTurn)
            } else {
                task.state = PmTaskState::Sampling;
                task.filled = 0;
                proof {
                    assert(task.window@.take(0) =~= Seq::<PmSensorData>::empty());
                }
                match reply {
                    Ok(_) => Ok(vec![PmAction::ReadFrame]),
                    Err(fault) => Ok(
                        vec![PmAction::Log(PmNote::WakeFailed(fault)), PmAction::ReadFrame],
                    ),
                }
            }
        },
        (PmTaskState::Sampling, PmEvent::Frame(Ok(sample))) => {
            let mut window = task.window;
            window[task.filled] = sample;
            task.window = window;
            proof {
                assert(task.window@.take(task.filled + 1) =~= old(task).model().samples.push(
                    sample,
                ));
            }
            if task.filled + 1 < AVERAGING_WINDOW {
                task.filled = task.filled + 1;
                Ok(vec![PmAction::ReadFrame])
            } else {
                proof {
                    assert(task.window@.take(5) =~= task.window@);
                    assert(task.window@.take(0) =~= Seq::<PmSensorData>::empty());
                }
                let reading = averaging_filter(&task.window);
                task.filled = 0;
                task.state = PmTaskState::Idle;
                Ok(vec![PmAction::Publish(DisplayInfo::Pms7003Data(reading)), PmAction::AwaitCommand])
            }
        },
        (PmTaskState::Sampling, PmEvent::Frame(Err(fault))) => {
            Ok(vec![PmAction::Log(PmNote::FrameFailed(fault)), PmAction::ReadFrame])
        },
        (PmTaskState::Sleeping, PmEvent::SleepReply(reply)) => {
            match sleep_verdict(reply) {
                SleepVerdict::Retry => Ok(vec![PmAction::Sleep]),
                _ => {
                    task.state = PmTaskState::Idle;
                    match reply {
                        Ok(_) => Ok(vec![PmAction::AwaitCommand]),
                        Err(fault) => Ok(
                            vec![
                                PmAction::Log(PmNote::SleepAbandoned(fault)),
                                PmAction::AwaitCommand,
                            ],
                        ),
                    }
                },
            }
        },
        _ => Err(OutOfTurn),
    }
}

/// The events of one sleep handshake: the `Off` command, then as many
/// incorrect responses as `retries` says, then `last`.
pub open spec fn sleep_script(retries: nat, last: Result<(), ProtocolFault>) -> Seq<PmEvent> {
    seq![PmEvent::Command(PmCommand::Off)] + Seq::new(
        retries,
        |i: int| PmEvent::SleepReply(Err(ProtocolFault::IncorrectResponse)),
    ) + seq![PmEvent::SleepReply(last)]
}

proof fn lemma_sleep_retries(m: PmModel, retries: nat)
    requires
        m.state == PmTaskState::Idle,
    ensures
        ({
            let events = seq![PmEvent::Command(PmCommand::Off)] + Seq::new(
                retries,
                |i: int| PmEvent::SleepReply(Err(ProtocolFault::IncorrectResponse)),
            );
            &&& m.after(events) == (PmModel { state: PmTaskState::Sleeping, ..m })
            &&& m.trace(events) == Seq::new(retries + 1, |i: int| PmAction::Sleep)
        }),
    decreases retries,
{
    let off = PmEvent::Command(PmCommand::Off);
    let again = PmEvent::SleepReply(Err(ProtocolFault::IncorrectResponse));
    let events = seq![off] + Seq::new(retries, |i: int| again);
    if retries == 0 {
        assert(events.drop_last() =~= Seq::<PmEvent>::empty());
        assert(m.trace(events.drop_last()) =~= Seq::<PmAction>::empty());
        assert(m.trace(events) =~= Seq::new(1, |i: int| PmAction::Sleep));
    } else {
        let fewer = (retries - 1) as nat;
        lemma_sleep_retries(m, fewer);
        assert(events.drop_last() =~= seq![off] + Seq::new(fewer, |i: int| again));
        assert(events.last() == again);
        assert(m.trace(events) =~= Seq::new(retries + 1, |i: int| PmAction::Sleep));
    }
}

/// Sleep retry convergence: told `Off` while idle, the task sends the sleep
/// command once and once more after each incorrect response; the first reply
/// of another kind, success or fault, ends the handshake and the task is idle
/// again. With `retries` incorrect responses that is `retries + 1` attempts.
/// A fault that ends the handshake is noted in the log once.
pub proof fn lemma_sleep_handshake(m: PmModel, retries: nat, last: Result<(), ProtocolFault>)
    requires
        m.state == PmTaskState::Idle,
        verdict_of(last) != SleepVerdict::Retry,
    ensures
        m.after(sleep_script(retries, last)) == m,
        m.trace(sleep_script(retries, last)) == Seq::new(retries + 1, |i: int| PmAction::Sleep)
            + sleep_closing(last),
{
    let events = sleep_script(retries, last);
    let earlier = seq![PmEvent::Command(PmCommand::Off)] + Seq::new(
        retries,
        |i: int| PmEvent::SleepReply(Err(ProtocolFault::IncorrectResponse)),
    );
    lemma_sleep_retries(m, retries);
    assert(events.drop_last() =~= earlier);
    assert(events.last() == PmEvent::SleepReply(last));
    assert(m.trace(events) =~= Seq::new(retries + 1, |i: int| PmAction::Sleep) + sleep_closing(
        last,
    ));
}

/// A reading is published only by the frame that fills the window, and it is
/// the mean of the five samples of that window.
pub proof fn lemma_publish_needs_full_window(m: PmModel, event: PmEvent, j: int)
    requires
        0 <= j < m.actions(event).len(),
        m.actions(event)[j] is Publish,
    ensures
        m.state == PmTaskState::Sampling,
        m.samples.len() + 1 >= AVERAGING_WINDOW,
        event matches PmEvent::Frame(Ok(sample)) && m.actions(event)[j] == PmAction::Publish(
            DisplayInfo::Pms7003Data(mean_of(m.samples.push(sample))),
        ),
        m.next(event).state == PmTaskState::Idle,
        m.next(event).samples.len() == 0,
{
}

/// A frame that fails to read counts for nothing: the window is as it was, the
/// fault is noted and the frame is read again.
pub proof fn lemma_failed_frame_is_read_again(m: PmModel, fault: ProtocolFault)
    requires
        m.state == PmTaskState::Sampling,
    ensures
        m.next(PmEvent::Frame(Err(fault))) == m,
        m.actions(PmEvent::Frame(Err(fault))) == seq![
            PmAction::Log(PmNote::FrameFailed(fault)),
            PmAction::ReadFrame,
        ],
{
}

} // verus!
