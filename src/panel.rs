//! The button panel: its two-byte event frames and its one-byte commands.

use vstd::prelude::*;

verus! {

use crate::mediator::Event;
use crate::state::TvState;

/// A command for the button panel.
#[derive(Clone, Copy, Debug, PartialEq, Eq, Structural)]
pub enum PanelCommand {
    /// Engage (`true`) or release the panel's pass-through relay.
    Passthrough(bool),
    /// Send a wake pulse to the secondary device.
    WakeSecondary,
    /// Put the secondary device to sleep.
    SleepSecondary,
}

/// Byte that engages the pass-through relay.
pub const PASSTHROUGH_ON_BYTE: u8 = 0x50;
/// Byte that releases the pass-through relay.
pub const PASSTHROUGH_OFF_BYTE: u8 = 0x70;
/// Byte that sends a wake pulse.
pub const WAKE_BYTE: u8 = 0x52;
/// Byte that puts the secondary device to sleep.
pub const SLEEP_BYTE: u8 = 0x53;

/// Frame code of an ASCII key, which has no action.
pub const FRAME_ASCII_KEY: u8 = 0x41;
/// Frame code of a consumer-control code.
pub const FRAME_CONSUMER_CODE: u8 = 0x43;
/// Frame code of a keyboard key code.
pub const FRAME_KEY_CODE: u8 = 0x4b;
/// Frame code of the OK button.
pub const FRAME_OK: u8 = 0x4f;
/// Frame code of the power button.
pub const FRAME_POWER: u8 = 0x57;
/// Frame code of a readiness change of the secondary device.
pub const FRAME_READINESS: u8 = 0x55;
/// Data byte of a readiness frame that says the device is ready.
pub const READY_YES: u8 = 0x59;

/// Whether the pass-through relay should be engaged while the television is in `tv`.
pub open spec fn passthrough_on(tv: TvState) -> bool {
    tv is Starting || tv is Unknown || tv is OnPrimaryInput
}

/// The byte that carries `cmd` to the panel.
pub open spec fn panel_byte_of(cmd: PanelCommand) -> u8 {
    match cmd {
        PanelCommand::Passthrough(on) => if on {
            PASSTHROUGH_ON_BYTE
        } else {
            PASSTHROUGH_OFF_BYTE
        },
        PanelCommand::WakeSecondary => WAKE_BYTE,
        PanelCommand::SleepSecondary => SLEEP_BYTE,
    }
}

/// The event that a panel frame `[code, data]` stands for, if any.
pub open spec fn panel_event_of(code: u8, data: u8) -> Option<Event> {
    if code == FRAME_CONSUMER_CODE {
        Some(Event::RemoteConsumerCodePressed(data))
    } else if code == FRAME_KEY_CODE {
        Some(Event::RemoteKeyPressed(data))
    } else if code == FRAME_OK {
        Some(Event::OkPressed)
    } else if code == FRAME_POWER {
        Some(Event::PowerButtonPressed)
    } else if code == FRAME_READINESS {
        Some(Event::SecondaryReadinessChanged(data == READY_YES))
    } else {
        None
    }
}

/// The pass-through byte for the television state `state`: the engage byte
/// while it is starting, unknown or on the primary input, else the release byte.
pub fn get_passthru_flag_command(state: &TvState) -> (r: u8)
    ensures
        r == panel_byte_of(PanelCommand::Passthrough(passthrough_on(*state))),
{
    let passthrough = match *state {
        TvState::Starting(_) | TvState::Unknown | TvState::OnPrimaryInput => true,
        _ => false,
    };
    if passthrough {
        PASSTHROUGH_ON_BYTE
    } else {
        PASSTHROUGH_OFF_BYTE
    }
}

/// The byte that carries `cmd` to the panel.
pub fn panel_byte(cmd: PanelCommand) -> (r: u8)
    ensures
        r == panel_byte_of(cmd),
{
    match cmd {
        PanelCommand::Passthrough(on) => if on {
            PASSTHROUGH_ON_BYTE
        } else {
            PASSTHROUGH_OFF_BYTE
        },
        PanelCommand::WakeSecondary => WAKE_BYTE,
        PanelCommand::SleepSecondary => SLEEP_BYTE,
    }
}

/// Decodes a panel frame `[code, data]`. A zero code marks "no event"; ASCII
/// keys and unknown codes carry no action either.
pub fn decode_panel_frame(code: u8, data: u8) -> (r: Option<Event>)
    ensures
        r == panel_event_of(code, data),
        code == 0 ==> r is None,
{
    if code == FRAME_CONSUMER_CODE {
        Some(Event::RemoteConsumerCodePressed(data))
    } else if code == FRAME_KEY_CODE {
        Some(Event::RemoteKeyPressed(data))
    } else if code == FRAME_OK {
        Some(Event::OkPressed)
    } else if code == FRAME_POWER {
        Some(Event::PowerButtonPressed)
    } else if code == FRAME_READINESS {
        Some(Event::SecondaryReadinessChanged(data == READY_YES))
    } else {
        None
    }
}

} // verus!
