use atmo_monitor::bme680_device::{
    bme680_controller, Bme680Data, BmeAction, BmeCommand, BmeDevice, BmeEvent, BmeTask,
    BmeTaskState,
};
use atmo_monitor::parameter::Parameters;
use atmo_monitor::{DisplayInfo, OutOfTurn};

fn reading() -> Bme680Data {
    Bme680Data {
        temperature: 2150,
        humidity: 45_300,
        pressure: 101_325,
        gas_resistance: 12_000,
        gas_valid: true,
        heat_stable: true,
    }
}

#[test]
fn parameters_have_stock_timing() {
    let p = Parameters::new(104, 212);
    assert_eq!(p.screen_columns, 104);
    assert_eq!(p.screen_rows, 212);
    assert_eq!(p.screen_margin, 5);
    assert_eq!(p.bme680_first_data_delay_ms, 100);
    assert_eq!(p.screen_controller_timeout_sec, 20);
    assert_eq!(p.screen_display_min_refresh_sec, 180);
    assert_eq!(p.screen_enable_shutdown_delay_sec, 30);
}

#[test]
fn parameters_keep_the_panel_size() {
    let p = Parameters::new(0, 65535);
    assert_eq!(p.screen_columns, 0);
    assert_eq!(p.screen_rows, 65535);
    assert_eq!(p, Parameters::new(0, 65535));
    assert_ne!(p, Parameters::new(1, 65535));
}

#[test]
fn default_reading_is_zero() {
    assert_eq!(
        Bme680Data::default(),
        Bme680Data {
            temperature: 0,
            humidity: 0,
            pressure: 0,
            gas_resistance: 0,
            gas_valid: false,
            heat_stable: false,
        }
    );
}

#[test]
fn profile_is_the_stock_one() {
    let p = BmeDevice::profile();
    assert!(matches!(p.humidity_oversampling, bme680::OversamplingSetting::OS2x));
    assert!(matches!(p.pressure_oversampling, bme680::OversamplingSetting::OS4x));
    assert!(matches!(p.temperature_oversampling, bme680::OversamplingSetting::OS8x));
    assert!(matches!(p.temperature_filter, bme680::IIRFilterSize::Size3));
    assert_eq!(p.heater_duration_ms, 1500);
    assert_eq!(p.heater_temperature, 320);
    assert_eq!(p.ambient_temperature, 25);
    assert!(p.run_gas);
}

#[test]
fn read_delay_is_the_whole_profile() {
    let mut dev = BmeDevice::new();
    assert_eq!(dev.read_delay_ms(), 0);
    dev.init(33);
    assert_eq!(dev.read_delay_ms(), 33);
    dev.init(255);
    assert_eq!(dev.read_delay_ms(), 255);
    dev.init(256);
    assert_eq!(dev.read_delay_ms(), 256);
    dev.init(1533);
    assert_eq!(dev.read_delay_ms(), 1533);
    dev.init(u64::MAX);
    assert_eq!(dev.read_delay_ms(), u64::MAX);
}

#[test]
fn read_packages_the_measurement() {
    let dev = BmeDevice::new();
    assert_eq!(dev.read(2150, 45_300, 101_325, 12_000, true, true), reading());
    assert_eq!(
        dev.read(-40, 1, 2, 3, false, true),
        Bme680Data {
            temperature: -40,
            humidity: 1,
            pressure: 2,
            gas_resistance: 3,
            gas_valid: false,
            heat_stable: true,
        }
    );
}

/// A task that is through its start-up, with a profile of `profile_ms`.
fn idle_task(profile_ms: u64) -> BmeTask {
    let (mut task, _) = BmeTask::start(&Parameters::new(104, 212));
    bme680_controller(&mut task, BmeEvent::Initialized { profile_duration_ms: profile_ms })
        .unwrap();
    bme680_controller(&mut task, BmeEvent::Measured(reading())).unwrap();
    bme680_controller(&mut task, BmeEvent::Elapsed).unwrap();
    task
}

#[test]
fn start_up_primes_the_sensor() {
    let (mut task, actions) = BmeTask::start(&Parameters::new(104, 212));
    assert_eq!(actions, vec![BmeAction::Initialize]);
    assert_eq!(task.state, BmeTaskState::Starting);
    assert_eq!(task.first_data_delay_ms, 100);
    assert_eq!(task.device.read_delay_ms(), 0);
    let actions =
        bme680_controller(&mut task, BmeEvent::Initialized { profile_duration_ms: 1533 }).unwrap();
    assert_eq!(actions, vec![BmeAction::Measure { settle_ms: 1533 }]);
    assert_eq!(task.state, BmeTaskState::Priming);
    assert_eq!(task.device.read_delay_ms(), 1533);
    // the first reading is thrown away
    let actions = bme680_controller(&mut task, BmeEvent::Measured(reading())).unwrap();
    assert_eq!(actions, vec![BmeAction::Delay { ms: 100 }]);
    assert_eq!(task.state, BmeTaskState::Settling);
    let actions = bme680_controller(&mut task, BmeEvent::Elapsed).unwrap();
    assert_eq!(actions, vec![BmeAction::AwaitCommand]);
    assert_eq!(task.state, BmeTaskState::Idle);
}

#[test]
fn start_up_pause_follows_the_parameters() {
    let mut p = Parameters::new(104, 212);
    p.bme680_first_data_delay_ms = 7;
    let (mut task, _) = BmeTask::start(&p);
    bme680_controller(&mut task, BmeEvent::Initialized { profile_duration_ms: 0 }).unwrap();
    let actions = bme680_controller(&mut task, BmeEvent::Measured(reading())).unwrap();
    assert_eq!(actions, vec![BmeAction::Delay { ms: 7 }]);
}

#[test]
fn start_up_refuses_events_out_of_turn() {
    let (mut task, _) = BmeTask::start(&Parameters::new(104, 212));
    assert_eq!(bme680_controller(&mut task, BmeEvent::Command(BmeCommand::On)), Err(OutOfTurn));
    assert_eq!(bme680_controller(&mut task, BmeEvent::Measured(reading())), Err(OutOfTurn));
    assert_eq!(bme680_controller(&mut task, BmeEvent::Elapsed), Err(OutOfTurn));
    assert_eq!(task.state, BmeTaskState::Starting);
    bme680_controller(&mut task, BmeEvent::Initialized { profile_duration_ms: 5 }).unwrap();
    assert_eq!(
        bme680_controller(&mut task, BmeEvent::Initialized { profile_duration_ms: 9 }),
        Err(OutOfTurn)
    );
    assert_eq!(task.device.read_delay_ms(), 5);
    assert_eq!(bme680_controller(&mut task, BmeEvent::Elapsed), Err(OutOfTurn));
    bme680_controller(&mut task, BmeEvent::Measured(reading())).unwrap();
    assert_eq!(bme680_controller(&mut task, BmeEvent::Command(BmeCommand::On)), Err(OutOfTurn));
    assert_eq!(task.state, BmeTaskState::Settling);
}

#[test]
fn on_measures_once_and_publishes() {
    let mut task = idle_task(1533);
    assert_eq!(task.state, BmeTaskState::Idle);
    let actions = bme680_controller(&mut task, BmeEvent::Command(BmeCommand::On)).unwrap();
    // the wait is the whole profile
    assert_eq!(actions, vec![BmeAction::Measure { settle_ms: 1533 }]);
    assert_eq!(task.state, BmeTaskState::Reading);
    let actions = bme680_controller(&mut task, BmeEvent::Measured(reading())).unwrap();
    assert_eq!(
        actions,
        vec![BmeAction::Publish(DisplayInfo::Bme680Data(reading())), BmeAction::AwaitCommand]
    );
    assert_eq!(task.state, BmeTaskState::Idle);
    assert_eq!(task.device.read_delay_ms(), 1533);
}

#[test]
fn off_asks_for_nothing() {
    let mut task = idle_task(40);
    let actions = bme680_controller(&mut task, BmeEvent::Command(BmeCommand::Off)).unwrap();
    assert_eq!(actions, vec![BmeAction::AwaitCommand]);
    assert_eq!(task.state, BmeTaskState::Idle);
}

#[test]
fn environmental_task_refuses_events_out_of_turn() {
    let mut task = idle_task(40);
    assert_eq!(bme680_controller(&mut task, BmeEvent::Measured(reading())), Err(OutOfTurn));
    assert_eq!(bme680_controller(&mut task, BmeEvent::Elapsed), Err(OutOfTurn));
    assert_eq!(
        bme680_controller(&mut task, BmeEvent::Initialized { profile_duration_ms: 1 }),
        Err(OutOfTurn)
    );
    assert_eq!(task.state, BmeTaskState::Idle);
    assert_eq!(task.device.read_delay_ms(), 40);
    bme680_controller(&mut task, BmeEvent::Command(BmeCommand::On)).unwrap();
    assert_eq!(bme680_controller(&mut task, BmeEvent::Command(BmeCommand::Off)), Err(OutOfTurn));
    assert_eq!(bme680_controller(&mut task, BmeEvent::Command(BmeCommand::On)), Err(OutOfTurn));
    assert_eq!(task.state, BmeTaskState::Reading);
}
