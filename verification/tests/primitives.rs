use atmo_monitor::bme680_device::{Bme680Data, BmeCommand};
use atmo_monitor::mailbox::{ResultMailbox, MAILBOX_CAPACITY};
use atmo_monitor::pms7003_device::{PmCommand, PmSensorData};
use atmo_monitor::signal::{CommandSignal, SignalState};
use atmo_monitor::DisplayInfo;

fn env(t: i32) -> DisplayInfo {
    DisplayInfo::Bme680Data(Bme680Data { temperature: t, ..Default::default() })
}

fn pm(v: u16) -> DisplayInfo {
    DisplayInfo::Pms7003Data(PmSensorData { pm2_5_atm: v, ..Default::default() })
}

#[test]
fn new_signal_is_empty() {
    let mut s: CommandSignal<BmeCommand> = CommandSignal::new();
    assert!(!s.signaled());
    assert_eq!(s.try_take(), None);
    assert!(matches!(s.state, SignalState::Empty));
}

#[test]
fn on_then_off_leaves_only_off() {
    let mut s = CommandSignal::new();
    s.signal(BmeCommand::On);
    s.signal(BmeCommand::Off);
    assert!(s.signaled());
    assert_eq!(s.wait(), Some(BmeCommand::Off));
    // exactly one command was pending
    assert_eq!(s.try_take(), None);
    assert!(!s.signaled());
}

#[test]
fn off_then_on_leaves_only_on() {
    let mut s = CommandSignal::new();
    s.signal(PmCommand::Off);
    s.signal(PmCommand::On);
    assert_eq!(s.try_take(), Some(PmCommand::On));
    assert_eq!(s.try_take(), None);
}

#[test]
fn wait_without_command_suspends() {
    let mut s: CommandSignal<PmCommand> = CommandSignal::new();
    assert_eq!(s.wait(), None);
    assert!(matches!(s.state, SignalState::Waiting));
    assert!(!s.signaled());
    // try_take does not disturb the waiter
    assert_eq!(s.try_take(), None);
    assert!(matches!(s.state, SignalState::Waiting));
}

#[test]
fn signal_wakes_the_waiter_once() {
    let mut s = CommandSignal::new();
    assert!(!s.signal(BmeCommand::On));
    assert_eq!(s.wait(), Some(BmeCommand::On));
    assert!(matches!(s.state, SignalState::Empty));
    assert_eq!(s.wait(), None);
    assert!(s.signal(BmeCommand::On));
    // nobody is left to wake
    assert!(!s.signal(BmeCommand::Off));
    assert_eq!(s.wait(), Some(BmeCommand::Off));
}

#[test]
fn reset_drops_the_pending_command() {
    let mut s = CommandSignal::new();
    s.signal(BmeCommand::On);
    s.reset();
    assert!(!s.signaled());
    assert_eq!(s.wait(), None);
    s.reset();
    assert!(matches!(s.state, SignalState::Waiting));
}

#[test]
fn mailbox_capacity_is_two() {
    assert_eq!(MAILBOX_CAPACITY, 2);
}

#[test]
fn new_mailbox_is_empty() {
    let mut m = ResultMailbox::new();
    assert!(m.is_empty());
    assert!(!m.is_full());
    assert_eq!(m.len(), 0);
    assert_eq!(m.try_receive(), None);
    assert_eq!(m.len(), 0);
}

#[test]
fn third_send_waits_for_a_receive() {
    let mut m = ResultMailbox::new();
    assert_eq!(m.try_send(env(1)), Ok(()));
    assert_eq!(m.len(), 1);
    assert!(!m.is_full());
    assert_eq!(m.try_send(pm(2)), Ok(()));
    assert_eq!(m.len(), 2);
    assert!(m.is_full());
    // full: the message comes back and nothing changes
    assert_eq!(m.try_send(env(3)), Err(env(3)));
    assert_eq!(m.try_send(env(3)), Err(env(3)));
    assert_eq!(m.len(), 2);
    assert_eq!(m.try_receive(), Some(env(1)));
    assert_eq!(m.try_send(env(3)), Ok(()));
    assert!(m.is_full());
    assert_eq!(m.try_receive(), Some(pm(2)));
    assert_eq!(m.try_receive(), Some(env(3)));
    assert_eq!(m.try_receive(), None);
    assert!(m.is_empty());
}

#[test]
fn mailbox_keeps_send_order() {
    let mut m = ResultMailbox::new();
    let mut sent = Vec::new();
    let mut got = Vec::new();
    let mut next: u16 = 0;
    // a fixed, uneven mix of sends and receives
    for step in 0..60u32 {
        if step % 3 != 2 {
            let msg = if next % 2 == 0 { pm(next) } else { env(next as i32) };
            if m.try_send(msg).is_ok() {
                sent.push(msg);
            }
            next += 1;
        } else if step % 7 != 0 {
            if let Some(msg) = m.try_receive() {
                got.push(msg);
            }
        }
        assert!(m.len() <= 2);
    }
    while let Some(msg) = m.try_receive() {
        got.push(msg);
    }
    assert!(!sent.is_empty());
    assert_eq!(sent, got);
}
