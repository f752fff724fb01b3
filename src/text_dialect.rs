//! The television's older text dialect: a frame is `"<cc> <id> <hh>\n"`, a
//! two-letter command, the set id and one data byte in lower-case hex; a reply
//! is ten bytes with `OK` at offset 5 and a two-digit hex value at offset 7.

use vstd::prelude::*;

verus! {

use crate::protocol::{DeviceCommand, LinkError, INPUT_TYPE_HDMI};

/// Set id that every frame addresses.
pub const SET_ID: u8 = 0x01;
/// Data byte of a query.
pub const TEXT_QUERY: u8 = 0xff;
/// Value of the first HDMI input in the input command.
pub const INPUT_HDMI_BASE: u8 = 0x90;
/// Length of every reply.
pub const REPLY_LEN: usize = 10;

/// Two-letter commands.
pub const COMMAND_POWER: [u8; 2] = [0x6b, 0x61];
pub const COMMAND_INPUT: [u8; 2] = [0x78, 0x62];
pub const COMMAND_KEY_CODE: [u8; 2] = [0x6d, 0x63];

/// Key codes of the key command.
pub const KEY_CODE_VOLUME_UP: u8 = 0x02;
pub const KEY_CODE_VOLUME_DOWN: u8 = 0x03;
pub const KEY_CODE_INPUT: u8 = 0x0b;
pub const KEY_CODE_SETTINGS: u8 = 0x43;
pub const KEY_CODE_CURSOR_LEFT: u8 = 0x06;
pub const KEY_CODE_CURSOR_RIGHT: u8 = 0x07;
pub const KEY_CODE_CURSOR_UP: u8 = 0x40;
pub const KEY_CODE_CURSOR_DOWN: u8 = 0x41;
pub const KEY_CODE_OK: u8 = 0x44;
pub const KEY_CODE_BACK: u8 = 0x28;

/// The lower-case hex digit for `n < 16`.
pub open spec fn hex_digit(n: u8) -> u8
    recommends
        n < 16,
{
    if n < 10 {
        (0x30 + n) as u8
    } else {
        (0x61 + n - 10) as u8
    }
}

/// The value of the hex digit `c`, either case.
pub open spec fn hex_value(c: u8) -> Option<u8> {
    if 0x30 <= c <= 0x39 {
        Some((c - 0x30) as u8)
    } else if 0x61 <= c <= 0x66 {
        Some((c - 0x61 + 10) as u8)
    } else if 0x41 <= c <= 0x46 {
        Some((c - 0x41 + 10) as u8)
    } else {
        None
    }
}

/// The frame for the two-letter command `cmd` with `data`.
pub open spec fn text_frame(cmd: [u8; 2], data: u8) -> Seq<u8> {
    seq![
        cmd@[0],
        cmd@[1],
        0x20u8,
        hex_digit(SET_ID / 16),
        hex_digit(SET_ID % 16),
        0x20u8,
        hex_digit(data / 16),
        hex_digit(data % 16),
        0x0au8,
    ]
}

/// The frame that makes the television carry out `cmd`; none for an input
/// number that the dialect cannot express (below 1, or past the last byte).
pub open spec fn text_command_frame(cmd: DeviceCommand) -> Option<Seq<u8>> {
    match cmd {
        DeviceCommand::PowerOn => Some(text_frame(COMMAND_POWER, 0x01)),
        DeviceCommand::PowerOff => Some(text_frame(COMMAND_POWER, 0x00)),
        DeviceCommand::SelectInput(n) => if 1 <= n && INPUT_HDMI_BASE + n - 1 <= 0xff {
            Some(text_frame(COMMAND_INPUT, (INPUT_HDMI_BASE + n - 1) as u8))
        } else {
            None
        },
        DeviceCommand::VolumeUp => Some(text_frame(COMMAND_KEY_CODE, KEY_CODE_VOLUME_UP)),
        DeviceCommand::VolumeDown => Some(text_frame(COMMAND_KEY_CODE, KEY_CODE_VOLUME_DOWN)),
        DeviceCommand::CursorUp => Some(text_frame(COMMAND_KEY_CODE, KEY_CODE_CURSOR_UP)),
        DeviceCommand::CursorDown => Some(text_frame(COMMAND_KEY_CODE, KEY_CODE_CURSOR_DOWN)),
        DeviceCommand::CursorLeft => Some(text_frame(COMMAND_KEY_CODE, KEY_CODE_CURSOR_LEFT)),
        DeviceCommand::CursorRight => Some(text_frame(COMMAND_KEY_CODE, KEY_CODE_CURSOR_RIGHT)),
        DeviceCommand::Confirm => Some(text_frame(COMMAND_KEY_CODE, KEY_CODE_OK)),
        DeviceCommand::Back => Some(text_frame(COMMAND_KEY_CODE, KEY_CODE_BACK)),
        DeviceCommand::Settings => Some(text_frame(COMMAND_KEY_CODE, KEY_CODE_SETTINGS)),
        DeviceCommand::Input => Some(text_frame(COMMAND_KEY_CODE, KEY_CODE_INPUT)),
    }
}

/// Validation of a reply; on success, its value.
pub open spec fn text_reply_result(r: Seq<u8>) -> Result<u8, LinkError> {
    if r.len() != REPLY_LEN {
        Err(LinkError::BadLength)
    } else if r[5] != 0x4f || r[6] != 0x4b {
        Err(LinkError::UnexpectedStatus)
    } else {
        match (hex_value(r[7]), hex_value(r[8])) {
            (Some(hi), Some(lo)) => Ok((hi * 16 + lo) as u8),
            _ => Err(LinkError::BadValue),
        }
    }
}

/// The input that an input reply's value names: HDMI input `1 + v - base`
/// for values from the base on, else none that the dialect names.
pub open spec fn text_input_of(v: u8) -> Option<(u8, u8)> {
    if v >= INPUT_HDMI_BASE {
        Some((INPUT_TYPE_HDMI, (1 + v - INPUT_HDMI_BASE) as u8))
    } else {
        None
    }
}

fn hex_digit_of(n: u8) -> (r: u8)
    requires
        n < 16,
    ensures
        r == hex_digit(n),
{
    if n < 10 {
        0x30 + n
    } else {
        0x61 + n - 10
    }
}

fn hex_value_of(c: u8) -> (r: Option<u8>)
    ensures
        r == hex_value(c),
        r matches Some(v) ==> v < 16,
{
    if 0x30 <= c && c <= 0x39 {
        Some(c - 0x30)
    } else if 0x61 <= c && c <= 0x66 {
        Some(c - 0x61 + 10)
    } else if 0x41 <= c && c <= 0x46 {
        Some(c - 0x41 + 10)
    } else {
        None
    }
}

/// Builds the frame for the two-letter command `cmd` with `data`.
pub fn encode_text(cmd: [u8; 2], data: u8) -> (r: Vec<u8>)
    ensures
        r@ == text_frame(cmd, data),
{
    let mut r: Vec<u8> = Vec::new();
    r.push(cmd[0]);
    r.push(cmd[1]);
    r.push(0x20);
    r.push(hex_digit_of(SET_ID / 16));
    r.push(hex_digit_of(SET_ID % 16));
    r.push(0x20);
    r.push(hex_digit_of(data / 16));
    r.push(hex_digit_of(data % 16));
    r.push(0x0a);
    proof {
        assert(r@ =~= text_frame(cmd, data));
    }
    r
}

/// The frame that asks whether the television is powered.
pub fn text_power_query() -> (r: Vec<u8>)
    ensures
        r@ == text_frame(COMMAND_POWER, TEXT_QUERY),
{
    encode_text(COMMAND_POWER, TEXT_QUERY)
}

/// The frame that asks which input the television shows.
pub fn text_input_query() -> (r: Vec<u8>)
    ensures
        r@ == text_frame(COMMAND_INPUT, TEXT_QUERY),
{
    encode_text(COMMAND_INPUT, TEXT_QUERY)
}

/// Builds the frame that makes the television carry out `cmd`, or `None` for
/// an input number that the dialect cannot express.
pub fn encode_text_command(cmd: DeviceCommand) -> (r: Option<Vec<u8>>)
    ensures
        match text_command_frame(cmd) {
            Some(f) => r matches Some(v) && v@ == f,
            None => r is None,
        },
{
    match cmd {
        DeviceCommand::PowerOn => Some(encode_text(COMMAND_POWER, 0x01)),
        DeviceCommand::PowerOff => Some(encode_text(COMMAND_POWER, 0x00)),
        DeviceCommand::SelectInput(n) => if 1 <= n && n <= 0xff - INPUT_HDMI_BASE + 1 {
            Some(encode_text(COMMAND_INPUT, INPUT_HDMI_BASE + (n - 1)))
        } else {
            None
        },
        DeviceCommand::VolumeUp => Some(encode_text(COMMAND_KEY_CODE, KEY_CODE_VOLUME_UP)),
        DeviceCommand::VolumeDown => Some(encode_text(COMMAND_KEY_CODE, KEY_CODE_VOLUME_DOWN)),
        DeviceCommand::CursorUp => Some(encode_text(COMMAND_KEY_CODE, KEY_CODE_CURSOR_UP)),
        DeviceCommand::CursorDown => Some(encode_text(COMMAND_KEY_CODE, KEY_CODE_CURSOR_DOWN)),
        DeviceCommand::CursorLeft => Some(encode_text(COMMAND_KEY_CODE, KEY_CODE_CURSOR_LEFT)),
        DeviceCommand::CursorRight => Some(encode_text(COMMAND_KEY_CODE, KEY_CODE_CURSOR_RIGHT)),
        DeviceCommand::Confirm => Some(encode_text(COMMAND_KEY_CODE, KEY_CODE_OK)),
        DeviceCommand::Back => Some(encode_text(COMMAND_KEY_CODE, KEY_CODE_BACK)),
        DeviceCommand::Settings => Some(encode_text(COMMAND_KEY_CODE, KEY_CODE_SETTINGS)),
        DeviceCommand::Input => Some(encode_text(COMMAND_KEY_CODE, KEY_CODE_INPUT)),
    }
}

/// Validates a reply: exactly ten bytes, `OK` at offset 5, and a two-digit
/// hex value at offset 7, which is returned.
pub fn decode_text_reply(reply: &[u8]) -> (r: Result<u8, LinkError>)
    ensures
        r == text_reply_result(reply@),
{
    if reply.len() != REPLY_LEN {
        return Err(LinkError::BadLength);
    }
    if reply[5] != 0x4f || reply[6] != 0x4b {
        return Err(LinkError::UnexpectedStatus);
    }
    match (hex_value_of(reply[7]), hex_value_of(reply[8])) {
        (Some(hi), Some(lo)) => Ok(hi * 16 + lo),
        _ => Err(LinkError::BadValue),
    }
}

/// Reads a power reply: whether the television is on (value 1).
pub fn text_is_powered_on(reply: &[u8]) -> (r: Result<bool, LinkError>)
    ensures
        match text_reply_result(reply@) {
            Ok(v) => r == Ok::<bool, LinkError>(v == 1),
            Err(e) => r == Err::<bool, LinkError>(e),
        },
{
    let v = decode_text_reply(reply)?;
    Ok(v == 1)
}

/// Reads an input reply: the HDMI input it names as a (type, index) pair,
/// or `None` for an input that is not HDMI.
pub fn text_current_input(reply: &[u8]) -> (r: Result<Option<(u8, u8)>, LinkError>)
    ensures
        match text_reply_result(reply@) {
            Ok(v) => r == Ok::<Option<(u8, u8)>, LinkError>(text_input_of(v)),
            Err(e) => r == Err::<Option<(u8, u8)>, LinkError>(e),
        },
{
    let v = decode_text_reply(reply)?;
    if v >= INPUT_HDMI_BASE {
        Ok(Some((INPUT_TYPE_HDMI, 1 + (v - INPUT_HDMI_BASE))))
    } else {
        Ok(None)
    }
}

} // verus!
