use awc_control::config::{AwcConfig, DeviceInfo, GraphType};
use awc_control::curve::CoOrdinates;
use awc_control::watch::{
    handle_signal, signal_from_value, tick_polls, toggle_power_decision, AwcController,
    CommandSignal, SignalSlot, WatchAction, WatchState,
};

fn config() -> AwcConfig {
    let mut g = Vec::new();
    g.push(CoOrdinates { temp: 40, fan_boost: 0 });
    g.push(CoOrdinates { temp: 80, fan_boost: 255 });
    let cpu = DeviceInfo::new(GraphType::Linear, g.clone(), 1, 50).unwrap();
    let gpu = DeviceInfo::new(GraphType::Linear, g, 6, 51).unwrap();
    AwcConfig::new(false, cpu, gpu, 30)
}

#[test]
fn signal_values_decode_to_commands() {
    assert_eq!(signal_from_value(-1), CommandSignal::Stop);
    assert_eq!(signal_from_value(1), CommandSignal::ToggleMode);
    assert_eq!(signal_from_value(2), CommandSignal::ShowStatus);
    assert_eq!(signal_from_value(3), CommandSignal::ForceIdleBoost);
    assert_eq!(signal_from_value(4), CommandSignal::WakeNow);
    assert_eq!(signal_from_value(0), CommandSignal::NoCommand);
    assert_eq!(signal_from_value(99), CommandSignal::NoCommand);
}

#[test]
fn mailbox_overwrites_an_unconsumed_command() {
    let mut m = SignalSlot::new();
    m.post(CommandSignal::ToggleMode);
    m.post(CommandSignal::ShowStatus);
    // only the most recent command is ever observed, exactly once
    assert_eq!(m.take(), CommandSignal::ShowStatus);
    assert_eq!(m.take(), CommandSignal::NoCommand);
}

#[test]
fn mailbox_delivers_at_most_once() {
    let mut m = SignalSlot::new();
    assert_eq!(m.take(), CommandSignal::NoCommand);
    m.post(CommandSignal::Stop);
    assert_eq!(m.take(), CommandSignal::Stop);
    assert_eq!(m.take(), CommandSignal::NoCommand);
}

#[test]
fn stop_terminates_and_parks_or_untoggles() {
    assert_eq!(
        handle_signal(WatchState::Polling, CommandSignal::Stop),
        (WatchState::Stopped, WatchAction::ZeroAllFans)
    );
    assert_eq!(
        handle_signal(WatchState::Suspended, CommandSignal::Stop),
        (WatchState::Stopped, WatchAction::TogglePower)
    );
}

#[test]
fn toggle_mode_switches_between_polling_and_suspended() {
    assert_eq!(
        handle_signal(WatchState::Polling, CommandSignal::ToggleMode),
        (WatchState::Suspended, WatchAction::TogglePower)
    );
    assert_eq!(
        handle_signal(WatchState::Suspended, CommandSignal::ToggleMode),
        (WatchState::Polling, WatchAction::TogglePower)
    );
}

#[test]
fn show_status_changes_no_state() {
    assert_eq!(
        handle_signal(WatchState::Polling, CommandSignal::ShowStatus),
        (WatchState::Polling, WatchAction::ShowZoneStatus)
    );
    assert_eq!(
        handle_signal(WatchState::Suspended, CommandSignal::ShowStatus),
        (WatchState::Suspended, WatchAction::ShowZoneStatus)
    );
}

#[test]
fn force_idle_boost_acts_only_while_polling() {
    assert_eq!(
        handle_signal(WatchState::Polling, CommandSignal::ForceIdleBoost),
        (WatchState::Polling, WatchAction::ZeroAllFans)
    );
    assert_eq!(
        handle_signal(WatchState::Suspended, CommandSignal::ForceIdleBoost),
        (WatchState::Suspended, WatchAction::DoNothing)
    );
}

#[test]
fn wake_now_and_no_command_keep_the_state() {
    assert_eq!(
        handle_signal(WatchState::Polling, CommandSignal::WakeNow),
        (WatchState::Polling, WatchAction::EndSleep)
    );
    assert_eq!(
        handle_signal(WatchState::Suspended, CommandSignal::NoCommand),
        (WatchState::Suspended, WatchAction::DoNothing)
    );
}

#[test]
fn only_polling_ticks_poll_zones() {
    assert!(tick_polls(WatchState::Polling));
    assert!(!tick_polls(WatchState::Suspended));
}

#[test]
fn toggle_decision_follows_hardware_truth() {
    assert_eq!(toggle_power_decision(0), 0xab);
    assert_eq!(toggle_power_decision(0xab), 0);
    assert_eq!(toggle_power_decision(5), 0);
}

#[test]
fn controller_caches_initial_hardware_readings() {
    let c = AwcController::new(config(), 0, 10, 2000, 20, 2500, 1000);
    assert_eq!(c.power_mode, 0);
    assert_eq!(c.interval, 30);
    assert_eq!(c.cpu.last_fan_boost, 10);
    assert_eq!(c.cpu.last_fan_rpm.rpm, 2000);
    assert_eq!(c.gpu.last_fan_boost, 20);
    assert_eq!(c.gpu.last_fan_rpm.ts, 1000);
    assert_eq!(c.watch_state(), WatchState::Polling);
}

#[test]
fn performance_mode_suspends_polling_until_toggled_back() {
    let mut c = AwcController::new(config(), 0, 10, 2000, 20, 2500, 1000);
    assert!(tick_polls(c.watch_state()));
    // power mode toggled to performance while polling
    let w = c.toggle_mode(0);
    assert_eq!(w, 0xab);
    assert_eq!(c.watch_state(), WatchState::Suspended);
    // the next tick polls no zone, so no fan-speed write is issued
    assert!(!tick_polls(c.watch_state()));
    // toggled back: polling resumes
    let w2 = c.toggle_mode(0xab);
    assert_eq!(w2, 0);
    assert_eq!(c.watch_state(), WatchState::Polling);
    assert!(tick_polls(c.watch_state()));
}
