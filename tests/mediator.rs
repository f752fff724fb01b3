use tv_mediator::bus::BusNotification;
use tv_mediator::mediator::{Command, Event, Mediator, MediatorConfig};
use tv_mediator::panel::PanelCommand;
use tv_mediator::protocol::DeviceCommand;
use tv_mediator::state::{SecondaryDeviceState, TvState};

fn mediator(window: Option<u64>) -> Mediator {
    Mediator::new(MediatorConfig { anti_hijack_window: window }, 0)
}

fn with_tv(tv: TvState) -> Mediator {
    let mut m = mediator(None);
    m.state.tv = tv;
    m
}

fn passthroughs(cmds: &[Command]) -> Vec<bool> {
    cmds.iter()
        .filter_map(|c| match c {
            Command::Panel(PanelCommand::Passthrough(on)) => Some(*on),
            _ => None,
        })
        .collect()
}

#[test]
fn starts_with_nothing_known() {
    let m = Mediator::new(MediatorConfig { anti_hijack_window: Some(20_000) }, 42);
    assert_eq!(m.state.tv, TvState::Unknown);
    assert_eq!(m.state.secondary_device, SecondaryDeviceState::Unknown);
    assert_eq!(m.state.last_idle_check, 42);
    assert_eq!(m.state.guard_window_start, None);
}

#[test]
fn repeated_observation_is_a_no_op() {
    let mut m = with_tv(TvState::OnOtherInput);
    assert!(m.step(Event::TvStateObserved(TvState::OnOtherInput), 500).is_empty());
    assert_eq!(m.state.tv, TvState::OnOtherInput);
}

#[test]
fn off_reading_inside_grace_is_ignored() {
    let mut m = mediator(None);
    m.step(Event::TvStateObserved(TvState::Off), 0);
    m.step(Event::PowerButtonPressed, 1_000);
    assert_eq!(m.state.tv, TvState::Starting(1_000));
    assert!(m.step(Event::TvStateObserved(TvState::Off), 5_000).is_empty());
    assert_eq!(m.state.tv, TvState::Starting(1_000));
    assert!(m.step(Event::TvStateObserved(TvState::Off), 10_999).is_empty());
    assert_eq!(m.state.tv, TvState::Starting(1_000));
    let cmds = m.step(Event::TvStateObserved(TvState::Off), 11_000);
    assert_eq!(m.state.tv, TvState::Off);
    assert_eq!(
        cmds,
        vec![
            Command::Panel(PanelCommand::Passthrough(false)),
            Command::Bus(BusNotification::TvPowerChanged(false)),
        ]
    );
}

#[test]
fn starting_accepts_on_readings_at_once() {
    let mut m = with_tv(TvState::Starting(1_000));
    let cmds = m.step(Event::TvStateObserved(TvState::OnPrimaryInput), 1_500);
    assert_eq!(m.state.tv, TvState::OnPrimaryInput);
    assert_eq!(
        cmds,
        vec![
            Command::Panel(PanelCommand::Passthrough(true)),
            Command::Bus(BusNotification::TvPowerChanged(true)),
            Command::Panel(PanelCommand::WakeSecondary),
        ]
    );
}

#[test]
fn passthrough_flag_per_state() {
    let cases = [
        (TvState::Starting(7), true),
        (TvState::Unknown, true),
        (TvState::OnPrimaryInput, true),
        (TvState::Off, false),
        (TvState::OnOtherInput, false),
    ];
    for (new, expected) in cases {
        let from = if new == TvState::Off { TvState::OnOtherInput } else { TvState::Off };
        let mut m = with_tv(from);
        let cmds = m.step(Event::TvStateObserved(new), 100);
        assert_eq!(passthroughs(&cmds), vec![expected]);
        assert_eq!(cmds[0], Command::Panel(PanelCommand::Passthrough(expected)));
        assert_eq!(m.state.tv, new);
    }
}

#[test]
fn idle_sleep_once_per_timeout() {
    let mut m = mediator(None);
    m.step(Event::TvStateObserved(TvState::OnOtherInput), 0);
    m.step(Event::SecondaryReadinessChanged(true), 0);
    let mut sleeps = Vec::new();
    for t in 1..=30u64 {
        let now = t * 1_000;
        let cmds = m.step(Event::Heartbeat, now);
        for c in cmds {
            assert_eq!(c, Command::Panel(PanelCommand::SleepSecondary));
            sleeps.push(now);
        }
    }
    assert_eq!(sleeps, vec![11_000, 22_000]);
}

#[test]
fn idle_sleep_needs_awake_device_and_idle_tv() {
    let mut m = mediator(None);
    m.step(Event::TvStateObserved(TvState::OnPrimaryInput), 0);
    m.step(Event::SecondaryReadinessChanged(true), 0);
    assert!(m.step(Event::Heartbeat, 60_000).is_empty());
    let mut m = mediator(None);
    m.step(Event::TvStateObserved(TvState::Off), 0);
    m.step(Event::SecondaryReadinessChanged(false), 0);
    assert!(m.step(Event::Heartbeat, 60_000).is_empty());
    m.step(Event::SecondaryReadinessChanged(true), 60_000);
    assert_eq!(m.step(Event::Heartbeat, 60_001), vec![Command::Panel(PanelCommand::SleepSecondary)]);
}

#[test]
fn power_button_when_off_starts_the_tv() {
    let mut m = mediator(None);
    m.step(Event::TvStateObserved(TvState::Off), 0);
    let cmds = m.step(Event::PowerButtonPressed, 2_500);
    assert_eq!(
        cmds,
        vec![
            Command::Device(DeviceCommand::PowerOn),
            Command::Device(DeviceCommand::SelectInput(1)),
            Command::Panel(PanelCommand::Passthrough(true)),
            Command::Bus(BusNotification::TvPowerChanged(true)),
        ]
    );
    assert_eq!(m.state.tv, TvState::Starting(2_500));
    assert!(!cmds.contains(&Command::Device(DeviceCommand::PowerOff)));
    assert!(!cmds.contains(&Command::Panel(PanelCommand::SleepSecondary)));
}

#[test]
fn power_button_when_on_turns_off() {
    for tv in [TvState::OnPrimaryInput, TvState::OnOtherInput] {
        let mut m = with_tv(tv);
        let cmds = m.step(Event::PowerButtonPressed, 10);
        assert_eq!(
            cmds,
            vec![
                Command::Device(DeviceCommand::PowerOff),
                Command::Bus(BusNotification::TvPowerChanged(false)),
            ]
        );
        assert_eq!(m.state.tv, tv);
    }
}

#[test]
fn power_button_without_baseline_is_ignored() {
    for tv in [TvState::Unknown, TvState::Starting(3)] {
        let mut m = with_tv(tv);
        assert!(m.step(Event::PowerButtonPressed, 10).is_empty());
        assert_eq!(m.state.tv, tv);
    }
}

#[test]
fn volume_down_in_every_state() {
    for tv in [
        TvState::Unknown,
        TvState::Starting(5),
        TvState::Off,
        TvState::OnPrimaryInput,
        TvState::OnOtherInput,
    ] {
        let mut m = with_tv(tv);
        let cmds = m.step(Event::RemoteConsumerCodePressed(0xea), 99);
        assert_eq!(cmds, vec![Command::Device(DeviceCommand::VolumeDown)]);
        assert_eq!(m.state.tv, tv);
    }
}

#[test]
fn consumer_and_key_tables() {
    let mut m = with_tv(TvState::OnPrimaryInput);
    assert_eq!(m.step(Event::RemoteConsumerCodePressed(0xe9), 0), vec![Command::Device(DeviceCommand::VolumeUp)]);
    assert_eq!(m.step(Event::RemoteConsumerCodePressed(0x86), 0), vec![Command::Device(DeviceCommand::Input)]);
    assert_eq!(m.step(Event::RemoteConsumerCodePressed(0x9a), 0), vec![Command::Device(DeviceCommand::Settings)]);
    assert_eq!(m.step(Event::RemoteConsumerCodePressed(0x46), 0), vec![Command::Device(DeviceCommand::Back)]);
    assert!(m.step(Event::RemoteConsumerCodePressed(0xcd), 0).is_empty());
    assert!(m.step(Event::RemoteConsumerCodePressed(0x01), 0).is_empty());
    assert_eq!(m.step(Event::RemoteKeyPressed(0x52), 0), vec![Command::Device(DeviceCommand::CursorUp)]);
    assert_eq!(m.step(Event::RemoteKeyPressed(0x51), 0), vec![Command::Device(DeviceCommand::CursorDown)]);
    assert_eq!(m.step(Event::RemoteKeyPressed(0x4f), 0), vec![Command::Device(DeviceCommand::CursorLeft)]);
    assert_eq!(m.step(Event::RemoteKeyPressed(0x50), 0), vec![Command::Device(DeviceCommand::CursorRight)]);
    assert!(m.step(Event::RemoteKeyPressed(0x04), 0).is_empty());
    assert_eq!(m.step(Event::OkPressed, 0), vec![Command::Device(DeviceCommand::Confirm)]);
    assert_eq!(m.step(Event::WakeSecondaryRequested, 0), vec![Command::Panel(PanelCommand::WakeSecondary)]);
    assert_eq!(m.step(Event::SleepSecondaryRequested, 0), vec![Command::Panel(PanelCommand::SleepSecondary)]);
    assert_eq!(m.state.tv, TvState::OnPrimaryInput);
}

#[test]
fn readiness_change_is_recorded_and_announced() {
    let mut m = mediator(None);
    let cmds = m.step(Event::SecondaryReadinessChanged(true), 0);
    assert_eq!(cmds, vec![Command::Bus(BusNotification::SecondaryDeviceChanged(true))]);
    assert_eq!(m.state.secondary_device, SecondaryDeviceState::On);
    let cmds = m.step(Event::SecondaryReadinessChanged(false), 0);
    assert_eq!(cmds, vec![Command::Bus(BusNotification::SecondaryDeviceChanged(false))]);
    assert_eq!(m.state.secondary_device, SecondaryDeviceState::Off);
}

#[test]
fn anti_hijack_reverts_early_switch() {
    let mut m = mediator(Some(20_000));
    m.step(Event::TvStateObserved(TvState::Off), 0);
    m.step(Event::PowerButtonPressed, 1_000);
    assert_eq!(m.state.guard_window_start, Some(1_000));
    let cmds = m.step(Event::TvStateObserved(TvState::OnOtherInput), 3_000);
    assert_eq!(
        cmds,
        vec![
            Command::Panel(PanelCommand::Passthrough(false)),
            Command::Bus(BusNotification::TvPowerChanged(true)),
            Command::Device(DeviceCommand::SelectInput(1)),
            Command::Panel(PanelCommand::WakeSecondary),
        ]
    );
    assert_eq!(m.state.guard_window_start, None);
}

#[test]
fn anti_hijack_yields_to_deliberate_switch() {
    let mut m = mediator(Some(20_000));
    m.step(Event::TvStateObserved(TvState::Off), 0);
    m.step(Event::PowerButtonPressed, 1_000);
    m.step(Event::RemoteConsumerCodePressed(0x86), 2_000);
    assert_eq!(m.state.guard_window_start, None);
    let cmds = m.step(Event::TvStateObserved(TvState::OnOtherInput), 3_000);
    assert!(!cmds.contains(&Command::Device(DeviceCommand::SelectInput(1))));
}

#[test]
fn anti_hijack_off_or_expired() {
    let mut m = mediator(None);
    m.step(Event::TvStateObserved(TvState::Off), 0);
    m.step(Event::PowerButtonPressed, 1_000);
    let cmds = m.step(Event::TvStateObserved(TvState::OnOtherInput), 3_000);
    assert_eq!(cmds.len(), 2);
    let mut m = mediator(Some(20_000));
    m.step(Event::TvStateObserved(TvState::Off), 0);
    m.step(Event::PowerButtonPressed, 1_000);
    m.step(Event::Heartbeat, 21_000);
    assert_eq!(m.state.guard_window_start, None);
    m.step(Event::Heartbeat, 2_000);
    let cmds = m.step(Event::TvStateObserved(TvState::OnOtherInput), 21_500);
    assert_eq!(cmds.len(), 2);
}
