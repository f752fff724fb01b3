use tv_mediator::bus::{event_for_topic, publication_for, script_name, BusNotification, SCRIPT_TOPIC};
use tv_mediator::mediator::Event;
use tv_mediator::outbox::Outbox;
use tv_mediator::panel::{decode_panel_frame, get_passthru_flag_command, panel_byte, PanelCommand};
use tv_mediator::state::TvState;

#[test]
fn passthru_flag_bytes() {
    assert_eq!(get_passthru_flag_command(&TvState::Unknown), b'P');
    assert_eq!(get_passthru_flag_command(&TvState::Starting(3)), b'P');
    assert_eq!(get_passthru_flag_command(&TvState::OnPrimaryInput), b'P');
    assert_eq!(get_passthru_flag_command(&TvState::Off), b'p');
    assert_eq!(get_passthru_flag_command(&TvState::OnOtherInput), b'p');
}

#[test]
fn panel_command_bytes() {
    assert_eq!(panel_byte(PanelCommand::Passthrough(true)), b'P');
    assert_eq!(panel_byte(PanelCommand::Passthrough(false)), b'p');
    assert_eq!(panel_byte(PanelCommand::WakeSecondary), b'R');
    assert_eq!(panel_byte(PanelCommand::SleepSecondary), b'S');
}

#[test]
fn panel_frames() {
    assert_eq!(decode_panel_frame(0, 0x43), None);
    assert_eq!(decode_panel_frame(b'A', b'x'), None);
    assert_eq!(decode_panel_frame(b'C', 0xea), Some(Event::RemoteConsumerCodePressed(0xea)));
    assert_eq!(decode_panel_frame(b'K', 0x52), Some(Event::RemoteKeyPressed(0x52)));
    assert_eq!(decode_panel_frame(b'O', 0), Some(Event::OkPressed));
    assert_eq!(decode_panel_frame(b'W', 0), Some(Event::PowerButtonPressed));
    assert_eq!(decode_panel_frame(b'U', b'Y'), Some(Event::SecondaryReadinessChanged(true)));
    assert_eq!(decode_panel_frame(b'U', b'N'), Some(Event::SecondaryReadinessChanged(false)));
    assert_eq!(decode_panel_frame(b'Z', 1), None);
}

#[test]
fn bus_topics() {
    assert_eq!(event_for_topic("air-remote/usb-power-on"), Some(Event::WakeSecondaryRequested));
    assert_eq!(event_for_topic("air-remote/other"), None);
    assert_eq!(event_for_topic(""), None);
}

#[test]
fn bus_publications() {
    let p = publication_for(BusNotification::SecondaryDeviceChanged(true));
    assert_eq!(p.topic, SCRIPT_TOPIC);
    assert_eq!(p.topic, "homeassistant_cmd/run/script.turn_on");
    assert_eq!(p.payload, r#"{"entity_id":"script.notice_dennis_usb_readiness_on"}"#);
    let p = publication_for(BusNotification::SecondaryDeviceChanged(false));
    assert_eq!(p.payload, r#"{"entity_id":"script.notice_dennis_usb_readiness_off"}"#);
    let p = publication_for(BusNotification::TvPowerChanged(true));
    assert_eq!(p.payload, r#"{"entity_id":"script.notice_tv_power_on"}"#);
    assert_eq!(script_name(BusNotification::AmbientLightingSet(false)), "ambient_lighting_off");
}

#[test]
fn outbox_drops_oldest_when_full() {
    let mut q: Outbox<u8> = Outbox::new(2);
    assert_eq!(q.push(1), None);
    assert_eq!(q.push(2), None);
    assert_eq!(q.push(3), Some(1));
    assert_eq!(q.len(), 2);
    assert_eq!(q.pop(), Some(2));
    assert_eq!(q.pop(), Some(3));
    assert_eq!(q.pop(), None);
    let mut z: Outbox<u8> = Outbox::new(0);
    assert_eq!(z.push(9), Some(9));
    assert_eq!(z.pop(), None);
}
