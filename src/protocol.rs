//! Wire protocol of the television's serial control link.
//!
//! A frame sent to the television is `[request_type, category, function,
//! parameters...]` followed by one checksum byte, the sum of the preceding
//! bytes modulo 255. Replies start with a header byte and a status byte;
//! query replies carry a length byte and a data payload.

use vstd::prelude::*;

verus! {

use crate::state::TvState;

/// Sum of a byte sequence, as a natural number.
pub open spec fn byte_sum(s: Seq<u8>) -> nat
    decreases s.len(),
{
    if s.len() == 0 {
        0
    } else {
        byte_sum(s.drop_last()) + s.last() as nat
    }
}

/// The checksum of a byte sequence: its sum modulo 255.
pub open spec fn checksum_of(s: Seq<u8>) -> u8 {
    (byte_sum(s) % 255) as u8
}

/// Checksum of `bytes`: the sum of all bytes modulo 255.
pub fn checksum(bytes: &[u8]) -> (r: u8)
    ensures
        r == checksum_of(bytes@),
        r as nat == byte_sum(bytes@) % 255,
{
    let mut acc: u32 = 0;
    let mut i: usize = 0;
    while i < bytes.len()
        invariant
            i <= bytes@.len(),
            acc < 255,
            acc as nat == byte_sum(bytes@.take(i as int)) % 255,
        decreases bytes@.len() - i,
    {
        proof {
            assert(bytes@.take(i as int + 1).drop_last() =~= bytes@.take(i as int));
            let s = byte_sum(bytes@.take(i as int));
            let b = bytes@[i as int] as nat;
            assert((s % 255 + b) % 255 == (s + b) % 255) by (nonlinear_arith)
                requires s >= 0, b >= 0;
        }
        acc = (acc + bytes[i] as u32) % 255;
        i = i + 1;
    }
    proof {
        assert(bytes@.take(bytes@.len() as int) =~= bytes@);
    }
    acc as u8
}

/// First byte of a query frame.
pub const QUERY: u8 = 0x83;
/// First byte of a command frame.
pub const COMMAND: u8 = 0x8c;
/// Placeholder parameter byte of a query frame.
pub const WILDCARD: u8 = 0xff;
/// First byte of every reply.
pub const REPLY_HEADER: u8 = 0x70;
/// Status byte of a successful reply.
pub const STATUS_OK: u8 = 0x00;

/// The control category that every frame addresses.
pub const CATEGORY_CONTROL: u8 = 0x00;
/// Function: power state.
pub const FUNCTION_POWER: u8 = 0x00;
/// Function: input selection.
pub const FUNCTION_INPUT_SELECT: u8 = 0x02;
/// Function: volume.
pub const FUNCTION_VOLUME: u8 = 0x05;
/// Function: remote-control key emulation.
pub const FUNCTION_REMOTE_CODE: u8 = 0x67;

/// Input type of the HDMI inputs.
pub const INPUT_TYPE_HDMI: u8 = 0x04;
/// HDMI index of the primary input.
pub const PRIMARY_HDMI: u8 = 0x01;

/// Remote key codes sent through the key emulation function.
pub const KEY_CODE_INPUT: u8 = 0x0b;
pub const KEY_CODE_SETTINGS: u8 = 0x43;
pub const KEY_CODE_CURSOR_LEFT: u8 = 0x06;
pub const KEY_CODE_CURSOR_RIGHT: u8 = 0x07;
pub const KEY_CODE_CURSOR_UP: u8 = 0x40;
pub const KEY_CODE_CURSOR_DOWN: u8 = 0x41;
pub const KEY_CODE_OK: u8 = 0x44;
pub const KEY_CODE_BACK: u8 = 0x28;

/// Why an exchange with the television failed.
#[derive(Clone, Copy, Debug, PartialEq, Eq, Structural)]
pub enum LinkError {
    /// The reply is shorter than its fixed three-byte head.
    Truncated,
    /// The reply does not start with the reply header.
    UnexpectedHeader,
    /// The reply's status is not OK.
    UnexpectedStatus,
    /// The reply's length does not agree with its length byte or its kind.
    BadLength,
    /// The reply's checksum byte is wrong.
    ChecksumMismatch,
    /// The payload is too short for the value asked for.
    ShortPayload,
    /// The reply's value is not a two-digit hexadecimal number.
    BadValue,
}

/// A command that the television carries out.
#[derive(Clone, Copy, Debug, PartialEq, Eq, Structural)]
pub enum DeviceCommand {
    VolumeUp,
    VolumeDown,
    PowerOn,
    PowerOff,
    /// Select the HDMI input with the given index.
    SelectInput(u8),
    CursorUp,
    CursorDown,
    CursorLeft,
    CursorRight,
    Confirm,
    Back,
    Settings,
    /// Cycle to the next input.
    Input,
}

/// `body` followed by its checksum.
pub open spec fn sealed(body: Seq<u8>) -> Seq<u8> {
    body.push(checksum_of(body))
}

/// Whether the last byte of `frame` is the checksum of the bytes before it.
pub open spec fn has_valid_checksum(frame: Seq<u8>) -> bool {
    frame.len() >= 1 && frame.last() == checksum_of(frame.drop_last())
}

/// The query frame for `function` of `category`.
pub open spec fn query_frame(category: u8, function: u8) -> Seq<u8> {
    sealed(seq![QUERY, category, function, WILDCARD, WILDCARD])
}

/// The command frame for `function` of `category` with `params`.
pub open spec fn command_frame(category: u8, function: u8, params: Seq<u8>) -> Seq<u8> {
    sealed(seq![COMMAND, category, function] + params)
}

/// The frame that makes the television carry out `cmd`.
pub open spec fn device_command_frame(cmd: DeviceCommand) -> Seq<u8> {
    match cmd {
        DeviceCommand::PowerOn => command_frame(CATEGORY_CONTROL, FUNCTION_POWER, seq![0x02u8, 0x01u8]),
        DeviceCommand::PowerOff => command_frame(CATEGORY_CONTROL, FUNCTION_POWER, seq![0x02u8, 0x00u8]),
        DeviceCommand::SelectInput(n) => command_frame(
            CATEGORY_CONTROL,
            FUNCTION_INPUT_SELECT,
            seq![0x03u8, INPUT_TYPE_HDMI, n],
        ),
        DeviceCommand::VolumeUp => command_frame(CATEGORY_CONTROL, FUNCTION_VOLUME, seq![0x03u8, 0x00u8, 0x00u8]),
        DeviceCommand::VolumeDown => command_frame(CATEGORY_CONTROL, FUNCTION_VOLUME, seq![0x03u8, 0x00u8, 0x01u8]),
        DeviceCommand::CursorUp => remote_code_frame(KEY_CODE_CURSOR_UP),
        DeviceCommand::CursorDown => remote_code_frame(KEY_CODE_CURSOR_DOWN),
        DeviceCommand::CursorLeft => remote_code_frame(KEY_CODE_CURSOR_LEFT),
        DeviceCommand::CursorRight => remote_code_frame(KEY_CODE_CURSOR_RIGHT),
        DeviceCommand::Confirm => remote_code_frame(KEY_CODE_OK),
        DeviceCommand::Back => remote_code_frame(KEY_CODE_BACK),
        DeviceCommand::Settings => remote_code_frame(KEY_CODE_SETTINGS),
        DeviceCommand::Input => remote_code_frame(KEY_CODE_INPUT),
    }
}

/// The frame that emulates a press of the remote key `code`.
pub open spec fn remote_code_frame(code: u8) -> Seq<u8> {
    command_frame(CATEGORY_CONTROL, FUNCTION_REMOTE_CODE, seq![0x02u8, code])
}

/// The bytes of a query reply that its checksum covers: header, status and data.
pub open spec fn query_reply_covered(r: Seq<u8>) -> Seq<u8> {
    seq![r[0], r[1]] + r.subrange(3, r.len() - 1)
}

/// Validation of the fixed head of a query reply; on success, the number of
/// bytes that follow it (data and checksum).
pub open spec fn query_head_result(r: Seq<u8>) -> Result<nat, LinkError> {
    if r.len() < 3 {
        Err(LinkError::Truncated)
    } else if r[0] != REPLY_HEADER {
        Err(LinkError::UnexpectedHeader)
    } else if r[1] != STATUS_OK {
        Err(LinkError::UnexpectedStatus)
    } else if r[2] == 0 {
        Err(LinkError::BadLength)
    } else {
        Ok(r[2] as nat)
    }
}

/// Validation of a whole query reply; on success, its data payload.
pub open spec fn query_reply_result(r: Seq<u8>) -> Result<Seq<u8>, LinkError> {
    match query_head_result(r) {
        Err(e) => Err(e),
        Ok(rest) => if r.len() != 3 + rest {
            Err(LinkError::BadLength)
        } else if r.last() != checksum_of(query_reply_covered(r)) {
            Err(LinkError::ChecksumMismatch)
        } else {
            Ok(r.subrange(3, r.len() - 1))
        },
    }
}

/// Validation of a command reply: `[header, status, checksum]`.
pub open spec fn command_reply_result(r: Seq<u8>) -> Result<(), LinkError> {
    if r.len() < 3 {
        Err(LinkError::Truncated)
    } else if r[0] != REPLY_HEADER {
        Err(LinkError::UnexpectedHeader)
    } else if r[1] != STATUS_OK {
        Err(LinkError::UnexpectedStatus)
    } else if r.len() != 3 {
        Err(LinkError::BadLength)
    } else if r[2] != checksum_of(seq![r[0], r[1]]) {
        Err(LinkError::ChecksumMismatch)
    } else {
        Ok(())
    }
}

/// A decoded payload as a sequence.
pub open spec fn payload_view(r: Result<Vec<u8>, LinkError>) -> Result<Seq<u8>, LinkError> {
    match r {
        Ok(v) => Ok(v@),
        Err(e) => Err(e),
    }
}

/// Whether a power query reply says that the television is on.
pub open spec fn power_reply_result(r: Seq<u8>) -> Result<bool, LinkError> {
    match query_reply_result(r) {
        Err(e) => Err(e),
        Ok(d) => if d.len() < 1 {
            Err(LinkError::ShortPayload)
        } else {
            Ok(d[0] == 1)
        },
    }
}

/// The (type, index) pair that an input query reply names.
pub open spec fn input_reply_result(r: Seq<u8>) -> Result<(u8, u8), LinkError> {
    match query_reply_result(r) {
        Err(e) => Err(e),
        Ok(d) => if d.len() < 2 {
            Err(LinkError::ShortPayload)
        } else {
            Ok((d[0], d[1]))
        },
    }
}

/// The television's state from a power reading and, when powered, an input reading.
pub open spec fn state_of(powered: bool, input: Option<(u8, u8)>) -> TvState {
    if !powered {
        TvState::Off
    } else if input == Some((INPUT_TYPE_HDMI, PRIMARY_HDMI)) {
        TvState::OnPrimaryInput
    } else {
        TvState::OnOtherInput
    }
}

fn seal(body: Vec<u8>) -> (r: Vec<u8>)
    ensures
        r@ == sealed(body@),
{
    let c = checksum(body.as_slice());
    let mut r = body;
    r.push(c);
    r
}

/// Builds the query frame for `function` of `category`.
pub fn encode_query(category: u8, function: u8) -> (r: Vec<u8>)
    ensures
        r@ == query_frame(category, function),
{
    let mut body: Vec<u8> = Vec::new();
    body.push(QUERY);
    body.push(category);
    body.push(function);
    body.push(WILDCARD);
    body.push(WILDCARD);
    proof {
        assert(body@ =~= seq![QUERY, category, function, WILDCARD, WILDCARD]);
    }
    seal(body)
}

/// Builds the command frame for `function` of `category` with `params`.
pub fn encode_command(category: u8, function: u8, params: &[u8]) -> (r: Vec<u8>)
    ensures
        r@ == command_frame(category, function, params@),
{
    let mut body: Vec<u8> = Vec::new();
    body.push(COMMAND);
    body.push(category);
    body.push(function);
    let mut i: usize = 0;
    while i < params.len()
        invariant
            i <= params@.len(),
            body@ =~= seq![COMMAND, category, function] + params@.take(i as int),
        decreases params@.len() - i,
    {
        body.push(params[i]);
        i = i + 1;
        proof {
            assert(body@ =~= seq![COMMAND, category, function] + params@.take(i as int));
        }
    }
    proof {
        assert(params@.take(params@.len() as int) =~= params@);
    }
    seal(body)
}

/// Builds the frame that makes the television carry out `cmd`.
pub fn encode_device_command(cmd: DeviceCommand) -> (r: Vec<u8>)
    ensures
        r@ == device_command_frame(cmd),
{
    match cmd {
        DeviceCommand::PowerOn => encode_command(CATEGORY_CONTROL, FUNCTION_POWER, &[0x02u8, 0x01u8]),
        DeviceCommand::PowerOff => encode_command(CATEGORY_CONTROL, FUNCTION_POWER, &[0x02u8, 0x00u8]),
        DeviceCommand::SelectInput(n) => encode_command(
            CATEGORY_CONTROL,
            FUNCTION_INPUT_SELECT,
            &[0x03u8, INPUT_TYPE_HDMI, n],
        ),
        DeviceCommand::VolumeUp => encode_command(CATEGORY_CONTROL, FUNCTION_VOLUME, &[0x03u8, 0x00u8, 0x00u8]),
        DeviceCommand::VolumeDown => encode_command(CATEGORY_CONTROL, FUNCTION_VOLUME, &[0x03u8, 0x00u8, 0x01u8]),
        DeviceCommand::CursorUp => encode_remote_code(KEY_CODE_CURSOR_UP),
        DeviceCommand::CursorDown => encode_remote_code(KEY_CODE_CURSOR_DOWN),
        DeviceCommand::CursorLeft => encode_remote_code(KEY_CODE_CURSOR_LEFT),
        DeviceCommand::CursorRight => encode_remote_code(KEY_CODE_CURSOR_RIGHT),
        DeviceCommand::Confirm => encode_remote_code(KEY_CODE_OK),
        DeviceCommand::Back => encode_remote_code(KEY_CODE_BACK),
        DeviceCommand::Settings => encode_remote_code(KEY_CODE_SETTINGS),
        DeviceCommand::Input => encode_remote_code(KEY_CODE_INPUT),
    }
}

/// Builds the frame that emulates a press of the remote key `code`.
pub fn encode_remote_code(code: u8) -> (r: Vec<u8>)
    ensures
        r@ == remote_code_frame(code),
{
    encode_command(CATEGORY_CONTROL, FUNCTION_REMOTE_CODE, &[0x02u8, code])
}

/// The frame that asks whether the television is powered.
pub fn power_query() -> (r: Vec<u8>)
    ensures
        r@ == query_frame(CATEGORY_CONTROL, FUNCTION_POWER),
{
    encode_query(CATEGORY_CONTROL, FUNCTION_POWER)
}

/// The frame that asks which input the television shows.
pub fn input_query() -> (r: Vec<u8>)
    ensures
        r@ == query_frame(CATEGORY_CONTROL, FUNCTION_INPUT_SELECT),
{
    encode_query(CATEGORY_CONTROL, FUNCTION_INPUT_SELECT)
}

/// Validates the first three bytes of a query reply. On success, returns the
/// number of bytes still to read: the data payload and the checksum byte.
pub fn check_query_head(head: &[u8]) -> (r: Result<usize, LinkError>)
    ensures
        match query_head_result(head@) {
            Ok(n) => r == Ok::<usize, LinkError>(n as usize),
            Err(e) => r == Err::<usize, LinkError>(e),
        },
{
    if head.len() < 3 {
        Err(LinkError::Truncated)
    } else if head[0] != REPLY_HEADER {
        Err(LinkError::UnexpectedHeader)
    } else if head[1] != STATUS_OK {
        Err(LinkError::UnexpectedStatus)
    } else if head[2] == 0 {
        Err(LinkError::BadLength)
    } else {
        Ok(head[2] as usize)
    }
}

/// Validates a whole query reply (head, data and checksum) and returns its
/// data payload.
pub fn decode_query_reply(reply: &[u8]) -> (r: Result<Vec<u8>, LinkError>)
    ensures
        payload_view(r) == query_reply_result(reply@),
{
    let rest = match check_query_head(reply) {
        Ok(n) => n,
        Err(e) => {
            return Err(e);
        },
    };
    if reply.len() - 3 != rest {
        return Err(LinkError::BadLength);
    }
    let last = reply.len() - 1;
    let mut covered: Vec<u8> = Vec::new();
    covered.push(reply[0]);
    covered.push(reply[1]);
    let mut data: Vec<u8> = Vec::new();
    let mut i: usize = 3;
    while i < last
        invariant
            3 <= i <= last,
            last == reply@.len() - 1,
            data@ =~= reply@.subrange(3, i as int),
            covered@ =~= seq![reply@[0], reply@[1]] + data@,
        decreases last - i,
    {
        data.push(reply[i]);
        covered.push(reply[i]);
        i = i + 1;
        proof {
            assert(data@ =~= reply@.subrange(3, i as int));
            assert(covered@ =~= seq![reply@[0], reply@[1]] + data@);
        }
    }
    if reply[last] != checksum(covered.as_slice()) {
        return Err(LinkError::ChecksumMismatch);
    }
    Ok(data)
}

/// Validates a command reply, `[header, status, checksum]`.
pub fn decode_command_reply(reply: &[u8]) -> (r: Result<(), LinkError>)
    ensures
        r == command_reply_result(reply@),
{
    if reply.len() < 3 {
        return Err(LinkError::Truncated);
    }
    if reply[0] != REPLY_HEADER {
        return Err(LinkError::UnexpectedHeader);
    }
    if reply[1] != STATUS_OK {
        return Err(LinkError::UnexpectedStatus);
    }
    if reply.len() != 3 {
        return Err(LinkError::BadLength);
    }
    let covered = [reply[0], reply[1]];
    proof {
        assert(covered@ =~= seq![reply@[0], reply@[1]]);
    }
    if reply[2] != checksum(&covered) {
        return Err(LinkError::ChecksumMismatch);
    }
    Ok(())
}

/// Reads a power query reply: whether the television is on (payload byte 1).
pub fn is_powered_on(reply: &[u8]) -> (r: Result<bool, LinkError>)
    ensures
        r == power_reply_result(reply@),
{
    let data = decode_query_reply(reply)?;
    if data.len() < 1 {
        return Err(LinkError::ShortPayload);
    }
    Ok(data[0] == 1)
}

/// Reads an input query reply: the (type, index) pair of the current input.
pub fn get_current_input(reply: &[u8]) -> (r: Result<(u8, u8), LinkError>)
    ensures
        r == input_reply_result(reply@),
{
    let data = decode_query_reply(reply)?;
    if data.len() < 2 {
        return Err(LinkError::ShortPayload);
    }
    Ok((data[0], data[1]))
}

/// The television's state from a power reading and, when it is powered, the
/// input reading: `Off` when unpowered, whatever the input; `OnPrimaryInput`
/// when the input is the primary HDMI input; `OnOtherInput` otherwise.
pub fn derive_state(powered: bool, input: Option<(u8, u8)>) -> (r: TvState)
    ensures
        r == state_of(powered, input),
{
    if !powered {
        TvState::Off
    } else {
        match input {
            Some((t, i)) => if t == INPUT_TYPE_HDMI && i == PRIMARY_HDMI {
                TvState::OnPrimaryInput
            } else {
                TvState::OnOtherInput
            },
            None => TvState::OnOtherInput,
        }
    }
}

/// The reply that a television sends to a query whose answer is `data`.
pub open spec fn query_reply_for(data: Seq<u8>) -> Seq<u8> {
    seq![REPLY_HEADER, STATUS_OK, (data.len() + 1) as u8] + data + seq![
        checksum_of(seq![REPLY_HEADER, STATUS_OK] + data),
    ]
}

/// The reply that a television sends to a command it accepted.
pub open spec fn command_ack() -> Seq<u8> {
    seq![REPLY_HEADER, STATUS_OK, checksum_of(seq![REPLY_HEADER, STATUS_OK])]
}

proof fn lemma_sum_update(s: Seq<u8>, j: int, v: u8)
    requires
        0 <= j < s.len(),
    ensures
        byte_sum(s.update(j, v)) + s[j] as nat == byte_sum(s) + v as nat,
    decreases s.len(),
{
    let t = s.update(j, v);
    if j == s.len() - 1 {
        assert(t.drop_last() =~= s.drop_last());
    } else {
        lemma_sum_update(s.drop_last(), j, v);
        assert(t.drop_last() =~= s.drop_last().update(j, v));
    }
}

proof fn lemma_mod_255_moves(a: int, d: int)
    requires
        a >= 0,
        a + d >= 0,
        d != 0,
        -255 < d < 255,
    ensures
        (a + d) % 255 != a % 255,
{
    vstd::arithmetic::div_mod::lemma_fundamental_div_mod(a, 255);
    vstd::arithmetic::div_mod::lemma_fundamental_div_mod(a + d, 255);
    let k = (a + d) / 255 - a / 255;
    if (a + d) % 255 == a % 255 {
        assert(d == 255 * k);
    }
}

/// Checksum round trip: every frame built by the encoders carries a valid
/// checksum, and the replies that a television builds the same way for a
/// payload of at most 254 bytes, or for an accepted command, validate.
pub proof fn checksum_round_trip(category: u8, function: u8, params: Seq<u8>, data: Seq<u8>)
    requires
        data.len() <= 254,
    ensures
        has_valid_checksum(query_frame(category, function)),
        has_valid_checksum(command_frame(category, function, params)),
        query_reply_result(query_reply_for(data)) == Ok::<Seq<u8>, LinkError>(data),
        command_reply_result(command_ack()) == Ok::<(), LinkError>(()),
{
    let body = seq![QUERY, category, function, WILDCARD, WILDCARD];
    assert(sealed(body).drop_last() =~= body);
    let body = seq![COMMAND, category, function] + params;
    assert(sealed(body).drop_last() =~= body);
    let r = query_reply_for(data);
    assert(r.subrange(3, r.len() - 1) =~= data);
    assert(query_reply_covered(r) =~= seq![REPLY_HEADER, STATUS_OK] + data);
}

/// Changing one data byte or the checksum byte of a valid query reply makes
/// validation fail with `ChecksumMismatch`, unless the change is between
/// 0x00 and 0xff, which leaves a sum modulo 255 as it was.
pub proof fn query_reply_corruption(r: Seq<u8>, i: int, v: u8)
    requires
        query_reply_result(r) is Ok,
        3 <= i < r.len(),
        v != r[i],
        r[i] as int - v as int != 255,
        v as int - r[i] as int != 255,
    ensures
        query_reply_result(r.update(i, v)) == Err::<Seq<u8>, LinkError>(LinkError::ChecksumMismatch),
{
    let t = r.update(i, v);
    assert(query_head_result(t) == query_head_result(r));
    if i == r.len() - 1 {
        assert(query_reply_covered(t) =~= query_reply_covered(r));
    } else {
        let c = query_reply_covered(r);
        assert(query_reply_covered(t) =~= c.update(i - 1, v));
        lemma_sum_update(c, i - 1, v);
        lemma_mod_255_moves(byte_sum(c) as int, v as int - r[i] as int);
    }
}

/// Changing the checksum byte of a valid command reply makes validation fail
/// with `ChecksumMismatch`.
pub proof fn command_reply_corruption(r: Seq<u8>, v: u8)
    requires
        command_reply_result(r) is Ok,
        v != r[2],
    ensures
        command_reply_result(r.update(2, v)) == Err::<(), LinkError>(LinkError::ChecksumMismatch),
{
    let t = r.update(2, v);
    assert(seq![t[0], t[1]] =~= seq![r[0], r[1]]);
}

/// A query reply with the right header and status and length byte `L` is
/// complete once `L` more bytes have been read. It validates only when it is
/// exactly `3 + L` bytes long and its last byte is the checksum of header,
/// status and data; its payload is then the `L - 1` bytes between.
pub proof fn query_reply_shape(r: Seq<u8>)
    requires
        r.len() >= 3,
        r[0] == REPLY_HEADER,
        r[1] == STATUS_OK,
        r[2] >= 1,
    ensures
        query_head_result(r) == Ok::<nat, LinkError>(r[2] as nat),
        r.len() != 3 + r[2] ==> query_reply_result(r) == Err::<Seq<u8>, LinkError>(LinkError::BadLength),
        r.len() == 3 + r[2] ==> (query_reply_result(r) is Ok <==> r.last() == checksum_of(
            seq![r[0], r[1]] + r.subrange(3, 3 + r[2] - 1),
        )),
        query_reply_result(r) matches Ok(d) ==> d.len() == r[2] - 1 && d == r.subrange(3, 3 + r[2] - 1),
{
}

/// The state read from the television is `Off` whenever the power reading
/// is false, whatever the input reading; `OnPrimaryInput` exactly when it is
/// powered on the primary input; `OnOtherInput` for any other powered reading.
pub proof fn state_derivation(powered: bool, input: Option<(u8, u8)>)
    ensures
        !powered ==> state_of(powered, input) == TvState::Off,
        (state_of(powered, input) == TvState::OnPrimaryInput) <==> (powered && input == Some(
            (INPUT_TYPE_HDMI, PRIMARY_HDMI),
        )),
        (state_of(powered, input) == TvState::OnOtherInput) <==> (powered && input != Some(
            (INPUT_TYPE_HDMI, PRIMARY_HDMI),
        )),
{
}

} // verus!
