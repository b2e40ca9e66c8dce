//! The environmental sensor: its readings, its measurement profile and the
//! task that drives it.

use crate::parameter::Parameters;
use crate::DisplayInfo;
use crate::OutOfTurn;
use vstd::prelude::*;

verus! {

/// `bme680::OversamplingSetting`: how many samples the sensor takes per value.
#[verifier::external_type_specification]
pub struct ExOversamplingSetting(bme680::OversamplingSetting);

/// `bme680::IIRFilterSize`: the size of the sensor's smoothing filter.
#[verifier::external_type_specification]
pub struct ExIIRFilterSize(bme680::IIRFilterSize);

/// What one transaction with the environmental sensor yields, in the sensor's
/// own fixed-point units.
#[derive(Debug, Clone, Copy, PartialEq, Eq, Structural)]
pub struct Bme680Data {
    /// Temperature in hundredths of a degree Celsius.
    pub temperature: i32,
    /// Relative humidity in thousandths of a percent.
    pub humidity: u32,
    /// Pressure in pascals, that is hundredths of a hectopascal.
    pub pressure: u32,
    /// Gas resistance in ohms.
    pub gas_resistance: u32,
    /// Whether a real gas measurement was made.
    pub gas_valid: bool,
    /// Whether the heater reached its target temperature.
    pub heat_stable: bool,
}

impl Default for Bme680Data {
    fn default() -> (r: Bme680Data)
        ensures
            r == (Bme680Data {
                temperature: 0,
                humidity: 0,
                pressure: 0,
                gas_resistance: 0,
                gas_valid: false,
                heat_stable: false,
            }),
    {
        Bme680Data {
            temperature: 0,
            humidity: 0,
            pressure: 0,
            gas_resistance: 0,
            gas_valid: false,
            heat_stable: false,
        }
    }
}

/// The command that starts or stops the environmental sensor.
#[derive(Debug, Clone, Copy, PartialEq, Eq, Structural)]
pub enum BmeCommand {
    On,
    Off,
}

/// The settings that the environmental sensor is initialized with.
pub struct MeasurementProfile {
    pub humidity_oversampling: bme680::OversamplingSetting,
    pub pressure_oversampling: bme680::OversamplingSetting,
    pub temperature_oversampling: bme680::OversamplingSetting,
    pub temperature_filter: bme680::IIRFilterSize,
    /// How long the gas heater runs, in milliseconds.
    pub heater_duration_ms: u64,
    /// The heater's target temperature in degrees Celsius.
    pub heater_temperature: u16,
    /// The ambient temperature assumed for the heater, in degrees Celsius.
    pub ambient_temperature: i8,
    pub run_gas: bool,
}

/// The environmental sensor as the coordination core sees it: the time that
/// one measurement with its profile takes.
#[derive(Debug, Clone, Copy)]
pub struct BmeDevice {
    profile_duration_ms: u64,
}

impl BmeDevice {
    /// The duration of one measurement in milliseconds, as last set by `init`.
    pub closed spec fn profile_duration(&self) -> u64 {
        self.profile_duration_ms
    }

    /// A device that is not initialized yet: its profile lasts no time.
    pub fn new() -> (dev: BmeDevice)
        ensures
            dev.profile_duration() == 0,
    {
        BmeDevice { profile_duration_ms: 0 }
    }

    /// The profile that the sensor is to be set up with.
    pub fn profile() -> (p: MeasurementProfile)
        ensures
            p.humidity_oversampling == bme680::OversamplingSetting::OS2x,
            p.pressure_oversampling == bme680::OversamplingSetting::OS4x,
            p.temperature_oversampling == bme680::OversamplingSetting::OS8x,
            p.temperature_filter == bme680::IIRFilterSize::Size3,
            p.heater_duration_ms == 1500,
            p.heater_temperature == 320,
            p.ambient_temperature == 25,
            p.run_gas,
    {
        MeasurementProfile {
            humidity_oversampling: bme680::OversamplingSetting::OS2x,
            pressure_oversampling: bme680::OversamplingSetting::OS4x,
            temperature_oversampling: bme680::OversamplingSetting::OS8x,
            temperature_filter: bme680::IIRFilterSize::Size3,
            heater_duration_ms: 1500,
            heater_temperature: 320,
            ambient_temperature: 25,
            run_gas: true,
        }
    }

    /// Records how long one measurement takes once the sensor has been set up
    /// with `profile()`.
    pub fn init(&mut self, profile_duration_ms: u64)
        ensures
            final(self).profile_duration() == profile_duration_ms,
    {
        self.profile_duration_ms = profile_duration_ms;
    }

    /// The time to wait between starting a measurement and fetching its
    /// result, in milliseconds: the whole duration of the profile.
    pub fn read_delay_ms(&self) -> (ms: u64)
        ensures
            ms == self.profile_duration(),
    {
        self.profile_duration_ms
    }

    /// Packages the values of one finished measurement.
    pub fn read(
        &self,
        temperature: i32,
        humidity: u32,
        pressure: u32,
        gas_resistance: u32,
        gas_valid: bool,
        heat_stable: bool,
    ) -> (reading: Bme680Data)
        ensures
            reading == (Bme680Data {
                temperature,
                humidity,
                pressure,
                gas_resistance,
                gas_valid,
                heat_stable,
            }),
    {
        Bme680Data { temperature, humidity, pressure, gas_resistance, gas_valid, heat_stable }
    }
}

/// Where the environmental task stands.
#[derive(Debug, Clone, Copy, PartialEq, Eq, Structural)]
pub enum BmeTaskState {
    /// Start-up: the sensor is being set up.
    Starting,
    /// Start-up: the first measurement, which is thrown away, is under way.
    Priming,
    /// Start-up: the pause after the first measurement.
    Settling,
    /// Waiting for a command.
    Idle,
    /// A measurement is under way.
    Reading,
}

/// What the environmental task is told.
#[derive(Debug, Clone, Copy, PartialEq, Eq, Structural)]
pub enum BmeEvent {
    /// The sensor is set up; one measurement takes this long.
    Initialized { profile_duration_ms: u64 },
    /// The measurement finished with this reading.
    Measured(Bme680Data),
    /// The delay that was asked for is over.
    Elapsed,
    /// The command signal delivered a command.
    Command(BmeCommand),
}

/// What the environmental task asks to be done.
#[derive(Debug, Clone, Copy, PartialEq, Eq, Structural)]
pub enum BmeAction {
    /// Set the sensor up with `BmeDevice::profile()`; answer with
    /// `BmeEvent::Initialized`.
    Initialize,
    /// Start a measurement, wait `settle_ms` milliseconds and fetch the result;
    /// answer with `BmeEvent::Measured`.
    Measure { settle_ms: u64 },
    /// Sleep for `ms` milliseconds; answer with `BmeEvent::Elapsed`.
    Delay { ms: u32 },
    /// Wait on the command signal; answer with `BmeEvent::Command`.
    AwaitCommand,
    /// Send the message on the result mailbox.
    Publish(DisplayInfo),
}

/// The environmental acquisition task.
#[derive(Debug, Clone, Copy)]
pub struct BmeTask {
    pub state: BmeTaskState,
    pub device: BmeDevice,
    /// The pause after the first measurement, in milliseconds.
    pub first_data_delay_ms: u32,
}

impl BmeTask {
    /// The task at boot, with the action that begins its start-up: the sensor
    /// is set up, one measurement is made and thrown away, and after a pause
    /// the task is idle.
    pub fn start(params: &Parameters) -> (r: (BmeTask, Vec<BmeAction>))
        ensures
            r.0.state == BmeTaskState::Starting,
            r.0.device.profile_duration() == 0,
            r.0.first_data_delay_ms == params.bme680_first_data_delay_ms,
            r.1@ == seq![BmeAction::Initialize],
    {
        let task = BmeTask {
            state: BmeTaskState::Starting,
            device: BmeDevice::new(),
            first_data_delay_ms: params.bme680_first_data_delay_ms,
        };
        (task, vec![BmeAction::Initialize])
    }

    /// True when `event` answers what the task is waiting for.
    pub open spec fn expects(&self, event: BmeEvent) -> bool {
        match (self.state, event) {
            (BmeTaskState::Starting, BmeEvent::Initialized { .. }) => true,
            (BmeTaskState::Priming, BmeEvent::Measured(_)) => true,
            (BmeTaskState::Settling, BmeEvent::Elapsed) => true,
            (BmeTaskState::Idle, BmeEvent::Command(_)) => true,
            (BmeTaskState::Reading, BmeEvent::Measured(_)) => true,
            _ => false,
        }
    }

    /// The state after `event`; an event out of turn leaves it as it is.
    pub open spec fn next_state(&self, event: BmeEvent) -> BmeTaskState {
        if !self.expects(event) {
            self.state
        } else {
            match (self.state, event) {
                (BmeTaskState::Starting, _) => BmeTaskState::Priming,
                (BmeTaskState::Priming, _) => BmeTaskState::Settling,
                (BmeTaskState::Settling, _) => BmeTaskState::Idle,
                (_, BmeEvent::Command(BmeCommand::On)) => BmeTaskState::Reading,
                _ => BmeTaskState::Idle,
            }
        }
    }

    /// How long one measurement takes after `event`: what the set-up reported,
    /// once it has.
    pub open spec fn next_profile_duration(&self, event: BmeEvent) -> u64 {
        match event {
            BmeEvent::Initialized { profile_duration_ms } if self.expects(event) => {
                profile_duration_ms
            },
            _ => self.device.profile_duration(),
        }
    }

    /// The actions that `event` asks for, in order; none for an event out of
    /// turn.
    pub open spec fn actions(&self, event: BmeEvent) -> Seq<BmeAction> {
        if !self.expects(event) {
            Seq::empty()
        } else {
            match (self.state, event) {
                (_, BmeEvent::Initialized { profile_duration_ms }) => seq![
                    BmeAction::Measure { settle_ms: profile_duration_ms },
                ],
                (BmeTaskState::Priming, BmeEvent::Measured(_)) => seq![
                    BmeAction::Delay { ms: self.first_data_delay_ms },
                ],
                (_, BmeEvent::Measured(reading)) => seq![
                    BmeAction::Publish(DisplayInfo::Bme680Data(reading)),
                    BmeAction::AwaitCommand,
                ],
                (_, BmeEvent::Elapsed) => seq![BmeAction::AwaitCommand],
                (_, BmeEvent::Command(BmeCommand::On)) => seq![
                    BmeAction::Measure { settle_ms: self.device.profile_duration() },
                ],
                (_, BmeEvent::Command(BmeCommand::Off)) => seq![BmeAction::AwaitCommand],
            }
        }
    }
}

/// One step of the environmental task. At start-up the sensor is set up, one
/// measurement is made and thrown away, and the task pauses. From then on `On`
/// starts one measurement, which waits out the whole duration of the profile
/// and whose reading is published; `Off` asks for nothing. An event that the
/// task is not waiting for is refused and changes nothing.
pub fn bme680_controller(task: &mut BmeTask, event: BmeEvent) -> (r: Result<
    Vec<BmeAction>,
    OutOfTurn,
>)
    ensures
        final(task).state == old(task).next_state(event),
        final(task).device.profile_duration() == old(task).next_profile_duration(event),
        final(task).first_data_delay_ms == old(task).first_data_delay_ms,
        old(task).expects(event) ==> r is Ok && r->Ok_0@ == old(task).actions(event),
        !old(task).expects(event) ==> r is Err && *final(task) == *old(task),
{
    match (task.state, event) {
        (BmeTaskState::Starting, BmeEvent::Initialized { profile_duration_ms }) => {
            task.device.init(profile_duration_ms);
            task.state = BmeTaskState::Priming;
            Ok(vec![BmeAction::Measure { settle_ms: profile_duration_ms }])
        },
        (BmeTaskState::Priming, BmeEvent::Measured(_)) => {
            task.state = BmeTaskState::Settling;
            Ok(vec![BmeAction::Delay { ms: task.first_data_delay_ms }])
        },
        (BmeTaskState::Settling, BmeEvent::Elapsed) => {
            task.state = BmeTaskState::Idle;
            Ok(vec![BmeAction::AwaitCommand])
        },
        (BmeTaskState::Idle, BmeEvent::Command(BmeCommand::On)) => {
            let settle_ms = task.device.read_delay_ms();
            task.state = BmeTaskState::Reading;
            Ok(vec![BmeAction::Measure { settle_ms }])
        },
        (BmeTaskState::Idle, BmeEvent::Command(BmeCommand::Off)) => {
            Ok(vec![BmeAction::AwaitCommand])
        },
        (BmeTaskState::Reading, BmeEvent::Measured(reading)) => {
            task.state = BmeTaskState::Idle;
            Ok(vec![BmeAction::Publish(DisplayInfo::Bme680Data(reading)), BmeAction::AwaitCommand])
        },
        _ => Err(OutOfTurn),
    }
}

} // verus!
