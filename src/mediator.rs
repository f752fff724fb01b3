//! The mediator: the one owner of the derived system state. Each event is one
//! step from the current state to the next state and the commands to send.
//! Timestamps are milliseconds on a monotonic clock.

use vstd::prelude::*;

verus! {

use crate::bus::BusNotification;
use crate::panel::{passthrough_on, PanelCommand};
use crate::protocol::{DeviceCommand, PRIMARY_HDMI};
use crate::state::{SecondaryDeviceState, TvState};

/// How long after a power-on an "off" reading is taken for a stale one.
pub const GRACE_PERIOD_MS: u64 = 10_000;
/// How long the secondary device may stay awake while nothing shows it.
pub const IDLE_TIMEOUT_MS: u64 = 10_000;

/// Consumer-control codes of the remote.
pub const CONSUMER_CODE_VOLUME_UP: u8 = 0xe9;
pub const CONSUMER_CODE_VOLUME_DOWN: u8 = 0xea;
pub const CONSUMER_CODE_MENU_ESCAPE: u8 = 0x46;
pub const CONSUMER_CODE_CHANNEL: u8 = 0x86;
pub const CONSUMER_CODE_MEDIA_SELECT_HOME: u8 = 0x9a;
pub const CONSUMER_CODE_PLAY_PAUSE: u8 = 0xcd;

/// Keyboard key codes of the remote's arrows.
pub const HID_KEY_ARROW_RIGHT: u8 = 0x50;
pub const HID_KEY_ARROW_LEFT: u8 = 0x4f;
pub const HID_KEY_ARROW_DOWN: u8 = 0x51;
pub const HID_KEY_ARROW_UP: u8 = 0x52;

/// An event for the mediator.
#[derive(Clone, Copy, Debug, PartialEq, Eq, Structural)]
pub enum Event {
    TvStateObserved(TvState),
    PowerButtonPressed,
    RemoteKeyPressed(u8),
    RemoteConsumerCodePressed(u8),
    OkPressed,
    WakeSecondaryRequested,
    SleepSecondaryRequested,
    SecondaryReadinessChanged(bool),
    Heartbeat,
}

/// A command that the mediator sends to one of its collaborators.
#[derive(Clone, Copy, Debug, PartialEq, Eq, Structural)]
pub enum Command {
    Device(DeviceCommand),
    Panel(PanelCommand),
    Bus(BusNotification),
}

/// The derived state that the mediator owns.
#[derive(Clone, Copy, Debug)]
pub struct MediatorState {
    pub tv: TvState,
    pub secondary_device: SecondaryDeviceState,
    /// When the idle timer was last reset.
    pub last_idle_check: u64,
    /// When the anti-hijack window opened, if it is open.
    pub guard_window_start: Option<u64>,
}

/// The optional rules of the mediator.
#[derive(Clone, Copy, Debug)]
pub struct MediatorConfig {
    /// Length of the anti-hijack window; `None` turns the rule off.
    pub anti_hijack_window: Option<u64>,
}

/// The mediator: its state and its configuration.
pub struct Mediator {
    pub state: MediatorState,
    pub config: MediatorConfig,
}

/// Time from `since` to `now`; zero if `now` is earlier.
pub open spec fn elapsed(now: u64, since: u64) -> nat {
    if now >= since {
        (now - since) as nat
    } else {
        0
    }
}

/// Whether the television counts as on while in `tv`.
pub open spec fn tv_powered(tv: TvState) -> bool {
    tv is Starting || tv is OnPrimaryInput || tv is OnOtherInput
}

/// Whether an "off" reading comes within the grace period after a power-on.
pub open spec fn stale_off(tv: TvState, new: TvState, now: u64) -> bool {
    &&& new == TvState::Off
    &&& tv matches TvState::Starting(since)
    &&& elapsed(now, since) < GRACE_PERIOD_MS
}

/// Whether the observation `new` changes the television's state.
pub open spec fn adopts(s: MediatorState, new: TvState, now: u64) -> bool {
    new != s.tv && !stale_off(s.tv, new, now)
}

/// Whether the television left the primary input on its own, inside the
/// anti-hijack window.
pub open spec fn hijacked(cfg: MediatorConfig, s: MediatorState, new: TvState, now: u64) -> bool {
    &&& new == TvState::OnOtherInput
    &&& cfg.anti_hijack_window matches Some(w)
    &&& s.guard_window_start matches Some(t)
    &&& elapsed(now, t) < w
}

/// Whether the idle-sleep guard fires at `now`.
pub open spec fn idle_due(s: MediatorState, now: u64) -> bool {
    &&& (s.tv is Off || s.tv is OnOtherInput)
    &&& s.secondary_device is On
    &&& elapsed(now, s.last_idle_check) > IDLE_TIMEOUT_MS
}

/// The device command for a consumer-control code, if it has one.
pub open spec fn consumer_command(code: u8) -> Option<DeviceCommand> {
    if code == CONSUMER_CODE_VOLUME_DOWN {
        Some(DeviceCommand::VolumeDown)
    } else if code == CONSUMER_CODE_VOLUME_UP {
        Some(DeviceCommand::VolumeUp)
    } else if code == CONSUMER_CODE_CHANNEL {
        Some(DeviceCommand::Input)
    } else if code == CONSUMER_CODE_MEDIA_SELECT_HOME {
        Some(DeviceCommand::Settings)
    } else if code == CONSUMER_CODE_MENU_ESCAPE {
        Some(DeviceCommand::Back)
    } else {
        None
    }
}

/// The device command for a keyboard key code, if it has one.
pub open spec fn key_command(code: u8) -> Option<DeviceCommand> {
    if code == HID_KEY_ARROW_UP {
        Some(DeviceCommand::CursorUp)
    } else if code == HID_KEY_ARROW_DOWN {
        Some(DeviceCommand::CursorDown)
    } else if code == HID_KEY_ARROW_LEFT {
        Some(DeviceCommand::CursorLeft)
    } else if code == HID_KEY_ARROW_RIGHT {
        Some(DeviceCommand::CursorRight)
    } else {
        None
    }
}

/// The one device command `d` as a command sequence; none for `None`.
pub open spec fn device_commands(d: Option<DeviceCommand>) -> Seq<Command> {
    match d {
        Some(c) => seq![Command::Device(c)],
        None => seq![],
    }
}

/// The commands that follow the adoption of `new`, beyond the pass-through
/// flag and the power notification.
pub open spec fn follow_up(cfg: MediatorConfig, s: MediatorState, new: TvState, now: u64) -> Seq<
    Command,
> {
    if new == TvState::OnPrimaryInput {
        seq![Command::Panel(PanelCommand::WakeSecondary)]
    } else if hijacked(cfg, s, new, now) {
        seq![
            Command::Device(DeviceCommand::SelectInput(PRIMARY_HDMI)),
            Command::Panel(PanelCommand::WakeSecondary),
        ]
    } else {
        seq![]
    }
}

/// The state after the consumer-control code `code`: the input-cycle code
/// is a deliberate input switch, which closes the anti-hijack window.
pub open spec fn after_consumer_code(s: MediatorState, code: u8) -> MediatorState {
    if code == CONSUMER_CODE_CHANNEL {
        MediatorState { guard_window_start: None, ..s }
    } else {
        s
    }
}

/// The state after a heartbeat at `now`.
pub open spec fn after_heartbeat(cfg: MediatorConfig, s: MediatorState, now: u64) -> MediatorState {
    MediatorState {
        last_idle_check: if idle_due(s, now) {
            now
        } else {
            s.last_idle_check
        },
        guard_window_start: match s.guard_window_start {
            Some(t) => if cfg.anti_hijack_window matches Some(w) && elapsed(now, t) < w {
                Some(t)
            } else {
                None
            },
            None => None,
        },
        ..s
    }
}

/// One step of the mediator: the next state and the commands to send, in order.
pub open spec fn transition(cfg: MediatorConfig, s: MediatorState, e: Event, now: u64) -> (
    MediatorState,
    Seq<Command>,
) {
    match e {
        Event::TvStateObserved(new) => if adopts(s, new, now) {
            (
                MediatorState { tv: new, last_idle_check: now, guard_window_start: None, ..s },
                seq![
                    Command::Panel(PanelCommand::Passthrough(passthrough_on(new))),
                    Command::Bus(BusNotification::TvPowerChanged(tv_powered(new))),
                ] + follow_up(cfg, s, new, now),
            )
        } else {
            (s, seq![])
        },
        Event::PowerButtonPressed => match s.tv {
            TvState::Off => (
                MediatorState {
                    tv: TvState::Starting(now),
                    last_idle_check: now,
                    guard_window_start: Some(now),
                    ..s
                },
                seq![
                    Command::Device(DeviceCommand::PowerOn),
                    Command::Device(DeviceCommand::SelectInput(PRIMARY_HDMI)),
                    Command::Panel(PanelCommand::Passthrough(true)),
                    Command::Bus(BusNotification::TvPowerChanged(true)),
                ],
            ),
            TvState::OnPrimaryInput | TvState::OnOtherInput => (
                s,
                seq![
                    Command::Device(DeviceCommand::PowerOff),
                    Command::Bus(BusNotification::TvPowerChanged(false)),
                ],
            ),
            _ => (s, seq![]),
        },
        Event::RemoteConsumerCodePressed(code) => (
            after_consumer_code(s, code),
            device_commands(consumer_command(code)),
        ),
        Event::RemoteKeyPressed(code) => (s, device_commands(key_command(code))),
        Event::OkPressed => (s, seq![Command::Device(DeviceCommand::Confirm)]),
        Event::WakeSecondaryRequested => (s, seq![Command::Panel(PanelCommand::WakeSecondary)]),
        Event::SleepSecondaryRequested => (s, seq![Command::Panel(PanelCommand::SleepSecondary)]),
        Event::SecondaryReadinessChanged(on) => (
            MediatorState {
                secondary_device: if on {
                    SecondaryDeviceState::On
                } else {
                    SecondaryDeviceState::Off
                },
                ..s
            },
            seq![Command::Bus(BusNotification::SecondaryDeviceChanged(on))],
        ),
        Event::Heartbeat => (
            after_heartbeat(cfg, s, now),
            if idle_due(s, now) {
                seq![Command::Panel(PanelCommand::SleepSecondary)]
            } else {
                seq![]
            },
        ),
    }
}

/// The state at startup: nothing known, no anti-hijack window, the idle
/// timer started at `now`.
pub open spec fn initial_state(now: u64) -> MediatorState {
    MediatorState {
        tv: TvState::Unknown,
        secondary_device: SecondaryDeviceState::Unknown,
        last_idle_check: now,
        guard_window_start: None,
    }
}

fn elapsed_ms(now: u64, since: u64) -> (r: u64)
    ensures
        r as nat == elapsed(now, since),
{
    if now >= since {
        now - since
    } else {
        0
    }
}

impl MediatorState {
    /// The state at startup: nothing known, the idle timer started at `now`.
    pub fn new(now: u64) -> (r: MediatorState)
        ensures
            r == initial_state(now),
    {
        MediatorState {
            tv: TvState::Unknown,
            secondary_device: SecondaryDeviceState::Unknown,
            last_idle_check: now,
            guard_window_start: None,
        }
    }
}

impl Mediator {
    /// A mediator at startup with the given configuration.
    pub fn new(config: MediatorConfig, now: u64) -> (r: Mediator)
        ensures
            r.config == config,
            r.state == initial_state(now),
    {
        Mediator { state: MediatorState::new(now), config }
    }

    /// Handles `event` at time `now`: moves to the next state and returns the
    /// commands to send, in order.
    pub fn step(&mut self, event: Event, now: u64) -> (r: Vec<Command>)
        ensures
            final(self).config == old(self).config,
            (final(self).state, r@) == transition(old(self).config, old(self).state, event, now),
    {
        match event {
            Event::TvStateObserved(new) => self.observe(new, now),
            Event::PowerButtonPressed => self.power_button(now),
            Event::RemoteConsumerCodePressed(code) => self.consumer_code(code),
            Event::RemoteKeyPressed(code) => {
                let mut out: Vec<Command> = Vec::new();
                if code == HID_KEY_ARROW_UP {
                    out.push(Command::Device(DeviceCommand::CursorUp));
                } else if code == HID_KEY_ARROW_DOWN {
                    out.push(Command::Device(DeviceCommand::CursorDown));
                } else if code == HID_KEY_ARROW_LEFT {
                    out.push(Command::Device(DeviceCommand::CursorLeft));
                } else if code == HID_KEY_ARROW_RIGHT {
                    out.push(Command::Device(DeviceCommand::CursorRight));
                }
                proof {
                    assert(out@ =~= device_commands(key_command(code)));
                }
                out
            },
            Event::OkPressed => {
                let mut out: Vec<Command> = Vec::new();
                out.push(Command::Device(DeviceCommand::Confirm));
                proof {
                    assert(out@ =~= seq![Command::Device(DeviceCommand::Confirm)]);
                }
                out
            },
            Event::WakeSecondaryRequested => {
                let mut out: Vec<Command> = Vec::new();
                out.push(Command::Panel(PanelCommand::WakeSecondary));
                proof {
                    assert(out@ =~= seq![Command::Panel(PanelCommand::WakeSecondary)]);
                }
                out
            },
            Event::SleepSecondaryRequested => {
                let mut out: Vec<Command> = Vec::new();
                out.push(Command::Panel(PanelCommand::SleepSecondary));
                proof {
                    assert(out@ =~= seq![Command::Panel(PanelCommand::SleepSecondary)]);
                }
                out
            },
            Event::SecondaryReadinessChanged(on) => {
                self.state.secondary_device = if on {
                    SecondaryDeviceState::On
                } else {
                    SecondaryDeviceState::Off
                };
                let mut out: Vec<Command> = Vec::new();
                out.push(Command::Bus(BusNotification::SecondaryDeviceChanged(on)));
                proof {
                    assert(out@ =~= seq![Command::Bus(BusNotification::SecondaryDeviceChanged(on))]);
                }
                out
            },
            Event::Heartbeat => self.heartbeat(now),
        }
    }

    fn observe(&mut self, new: TvState, now: u64) -> (r: Vec<Command>)
        ensures
            final(self).config == old(self).config,
            (final(self).state, r@) == transition(
                old(self).config,
                old(self).state,
                Event::TvStateObserved(new),
                now,
            ),
    {
        let mut out: Vec<Command> = Vec::new();
        if new == self.state.tv {
            return out;
        }
        if let TvState::Starting(since) = self.state.tv {
            if new == TvState::Off && elapsed_ms(now, since) < GRACE_PERIOD_MS {
                return out;
            }
        }
        let hijack = match (self.config.anti_hijack_window, self.state.guard_window_start) {
            (Some(w), Some(t)) => new == TvState::OnOtherInput && elapsed_ms(now, t) < w,
            _ => false,
        };
        let passthrough = match new {
            TvState::Starting(_) | TvState::Unknown | TvState::OnPrimaryInput => true,
            _ => false,
        };
        let powered = match new {
            TvState::Starting(_) | TvState::OnPrimaryInput | TvState::OnOtherInput => true,
            _ => false,
        };
        out.push(Command::Panel(PanelCommand::Passthrough(passthrough)));
        out.push(Command::Bus(BusNotification::TvPowerChanged(powered)));
        if new == TvState::OnPrimaryInput {
            out.push(Command::Panel(PanelCommand::WakeSecondary));
        } else if hijack {
            out.push(Command::Device(DeviceCommand::SelectInput(PRIMARY_HDMI)));
            out.push(Command::Panel(PanelCommand::WakeSecondary));
        }
        proof {
            assert(out@ =~= seq![
                Command::Panel(PanelCommand::Passthrough(passthrough_on(new))),
                Command::Bus(BusNotification::TvPowerChanged(tv_powered(new))),
            ] + follow_up(self.config, self.state, new, now));
        }
        self.state.tv = new;
        self.state.last_idle_check = now;
        self.state.guard_window_start = None;
        out
    }

    fn power_button(&mut self, now: u64) -> (r: Vec<Command>)
        ensures
            final(self).config == old(self).config,
            (final(self).state, r@) == transition(
                old(self).config,
                old(self).state,
                Event::PowerButtonPressed,
                now,
            ),
    {
        let mut out: Vec<Command> = Vec::new();
        match self.state.tv {
            TvState::Off => {
                out.push(Command::Device(DeviceCommand::PowerOn));
                out.push(Command::Device(DeviceCommand::SelectInput(PRIMARY_HDMI)));
                out.push(Command::Panel(PanelCommand::Passthrough(true)));
                out.push(Command::Bus(BusNotification::TvPowerChanged(true)));
                self.state.tv = TvState::Starting(now);
                self.state.last_idle_check = now;
                self.state.guard_window_start = Some(now);
                proof {
                    assert(out@ =~= seq![
                        Command::Device(DeviceCommand::PowerOn),
                        Command::Device(DeviceCommand::SelectInput(PRIMARY_HDMI)),
                        Command::Panel(PanelCommand::Passthrough(true)),
                        Command::Bus(BusNotification::TvPowerChanged(true)),
                    ]);
                }
            },
            TvState::OnPrimaryInput | TvState::OnOtherInput => {
                out.push(Command::Device(DeviceCommand::PowerOff));
                out.push(Command::Bus(BusNotification::TvPowerChanged(false)));
                proof {
                    assert(out@ =~= seq![
                        Command::Device(DeviceCommand::PowerOff),
                        Command::Bus(BusNotification::TvPowerChanged(false)),
                    ]);
                }
            },
            _ => {
                proof {
                    assert(out@ =~= Seq::<Command>::empty());
                }
            },
        }
        out
    }

    fn consumer_code(&mut self, code: u8) -> (r: Vec<Command>)
        ensures
            final(self).config == old(self).config,
            final(self).state == after_consumer_code(old(self).state, code),
            r@ == device_commands(consumer_command(code)),
    {
        let mut out: Vec<Command> = Vec::new();
        if code == CONSUMER_CODE_VOLUME_DOWN {
            out.push(Command::Device(DeviceCommand::VolumeDown));
        } else if code == CONSUMER_CODE_VOLUME_UP {
            out.push(Command::Device(DeviceCommand::VolumeUp));
        } else if code == CONSUMER_CODE_CHANNEL {
            // The user picks another input on purpose: the guard must not undo it.
            self.state.guard_window_start = None;
            out.push(Command::Device(DeviceCommand::Input));
        } else if code == CONSUMER_CODE_MEDIA_SELECT_HOME {
            out.push(Command::Device(DeviceCommand::Settings));
        } else if code == CONSUMER_CODE_MENU_ESCAPE {
            out.push(Command::Device(DeviceCommand::Back));
        }
        proof {
            assert(out@ =~= device_commands(consumer_command(code)));
        }
        out
    }

    fn heartbeat(&mut self, now: u64) -> (r: Vec<Command>)
        ensures
            final(self).config == old(self).config,
            (final(self).state, r@) == transition(
                old(self).config,
                old(self).state,
                Event::Heartbeat,
                now,
            ),
    {
        let mut out: Vec<Command> = Vec::new();
        let idle = match (self.state.tv, self.state.secondary_device) {
            (TvState::Off, SecondaryDeviceState::On) | (
                TvState::OnOtherInput,
                SecondaryDeviceState::On,
            ) => elapsed_ms(now, self.state.last_idle_check) > IDLE_TIMEOUT_MS,
            _ => false,
        };
        if idle {
            out.push(Command::Panel(PanelCommand::SleepSecondary));
            self.state.last_idle_check = now;
        }
        if let Some(t) = self.state.guard_window_start {
            let open = match self.config.anti_hijack_window {
                Some(w) => elapsed_ms(now, t) < w,
                None => false,
            };
            if !open {
                self.state.guard_window_start = None;
            }
        }
        proof {
            if idle {
                assert(out@ =~= seq![Command::Panel(PanelCommand::SleepSecondary)]);
            } else {
                assert(out@ =~= Seq::<Command>::empty());
            }
        }
        out
    }
}

/// Whether `c` sets the panel's pass-through flag.
pub open spec fn is_passthrough(c: Command) -> bool {
    c matches Command::Panel(PanelCommand::Passthrough(_))
}

/// Starting-state grace: an "off" reading less than the grace period after
/// a power-on is ignored and the television stays `Starting`; the same
/// reading once the grace period has passed turns it `Off`.
pub proof fn starting_grace(cfg: MediatorConfig, s: MediatorState, since: u64, now: u64)
    requires
        s.tv == TvState::Starting(since),
    ensures
        elapsed(now, since) < GRACE_PERIOD_MS ==> transition(
            cfg,
            s,
            Event::TvStateObserved(TvState::Off),
            now,
        ) == (s, Seq::<Command>::empty()),
        elapsed(now, since) >= GRACE_PERIOD_MS ==> transition(
            cfg,
            s,
            Event::TvStateObserved(TvState::Off),
            now,
        ).0.tv == TvState::Off,
{
}

/// Pass-through flag: the flag is on exactly while the television is
/// starting, unknown or on the primary input. A reading that changes the
/// television's state sends exactly one pass-through command, the first one,
/// and it matches the new state; a reading that changes nothing sends nothing.
pub proof fn passthrough_follows_state(cfg: MediatorConfig, s: MediatorState, new: TvState, now: u64)
    ensures
        passthrough_on(new) <==> (new is Starting || new is Unknown || new is OnPrimaryInput),
        adopts(s, new, now) ==> ({
            let cmds = transition(cfg, s, Event::TvStateObserved(new), now).1;
            &&& cmds.len() >= 1
            &&& cmds[0] == Command::Panel(PanelCommand::Passthrough(passthrough_on(new)))
            &&& forall|j: int| 1 <= j < cmds.len() ==> !is_passthrough(#[trigger] cmds[j])
        }),
        !adopts(s, new, now) ==> transition(cfg, s, Event::TvStateObserved(new), now) == (
            s,
            Seq::<Command>::empty(),
        ),
{
}

/// Idle-sleep guard: once the television has been off or on another input
/// for longer than the idle timeout while the secondary device is awake, a
/// heartbeat puts the device to sleep once; heartbeats within the next
/// timeout send nothing, and the first one after it sends the next sleep.
pub proof fn idle_sleep_once_per_interval(cfg: MediatorConfig, s: MediatorState, t1: u64, t2: u64)
    requires
        s.tv is Off || s.tv is OnOtherInput,
        s.secondary_device is On,
        elapsed(t1, s.last_idle_check) > IDLE_TIMEOUT_MS,
        t1 <= t2,
    ensures
        transition(cfg, s, Event::Heartbeat, t1).1 == seq![
            Command::Panel(PanelCommand::SleepSecondary),
        ],
        t2 - t1 <= IDLE_TIMEOUT_MS ==> transition(
            cfg,
            transition(cfg, s, Event::Heartbeat, t1).0,
            Event::Heartbeat,
            t2,
        ).1 == Seq::<Command>::empty(),
        t2 - t1 > IDLE_TIMEOUT_MS ==> transition(
            cfg,
            transition(cfg, s, Event::Heartbeat, t1).0,
            Event::Heartbeat,
            t2,
        ).1 == seq![Command::Panel(PanelCommand::SleepSecondary)],
{
}

/// The power button while the television is off sends, in order, power-on,
/// select-primary-input, the pass-through flag and the bus "on" notice, and
/// the television becomes `Starting(now)`; no power-off or sleep is sent.
pub proof fn power_button_when_off(cfg: MediatorConfig, s: MediatorState, now: u64)
    requires
        s.tv == TvState::Off,
    ensures
        transition(cfg, s, Event::PowerButtonPressed, now).1 == seq![
            Command::Device(DeviceCommand::PowerOn),
            Command::Device(DeviceCommand::SelectInput(PRIMARY_HDMI)),
            Command::Panel(PanelCommand::Passthrough(true)),
            Command::Bus(BusNotification::TvPowerChanged(true)),
        ],
        transition(cfg, s, Event::PowerButtonPressed, now).0.tv == TvState::Starting(now),
        forall|j: int|
            0 <= j < transition(cfg, s, Event::PowerButtonPressed, now).1.len() ==> {
                let c = #[trigger] transition(cfg, s, Event::PowerButtonPressed, now).1[j];
                c != Command::Device(DeviceCommand::PowerOff) && c != Command::Panel(
                    PanelCommand::SleepSecondary,
                )
            },
{
    let cmds = transition(cfg, s, Event::PowerButtonPressed, now).1;
    assert forall|j: int| 0 <= j < cmds.len() implies cmds[j] != Command::Device(
        DeviceCommand::PowerOff,
    ) && cmds[j] != Command::Panel(PanelCommand::SleepSecondary) by {
        assert(j == 0 || j == 1 || j == 2 || j == 3);
    }
}

/// The volume-down code sends exactly one volume-down command and leaves the
/// state as it was, whatever the state.
pub proof fn volume_down_in_any_state(cfg: MediatorConfig, s: MediatorState, now: u64)
    ensures
        transition(cfg, s, Event::RemoteConsumerCodePressed(CONSUMER_CODE_VOLUME_DOWN), now) == (
            s,
            seq![Command::Device(DeviceCommand::VolumeDown)],
        ),
{
}

} // verus!
