//! The wire protocol: the requests a client sends, the responses a server
//! returns, and their encoding as bytes.
//!
//! A message travels as a frame: the length of its payload as eight bytes,
//! least significant first, then the payload. The payload of a request is one
//! byte that tells its kind. The payload of a response starts with a byte
//! that tells its kind; a snapshot follows as one byte for the state, three
//! numbers of eight bytes each (position, completed passes, seconds left) and
//! the cycle's name as UTF-8 up to the end; an error follows as its message
//! as UTF-8 up to the end.

use vstd::prelude::*;
use vstd::bytes::{
    lemma_auto_spec_u64_to_from_le_bytes, spec_u64_from_le_bytes, spec_u64_to_le_bytes,
    u64_from_le_bytes, u64_to_le_bytes,
};
use vstd::slice::{slice_subrange, slice_to_vec};
use vstd::string::StringSliceAdditionalSpecFns;
use vstd::utf8::{
    decode_utf8, encode_utf8, encode_utf8_decode_utf8, encode_utf8_valid_utf8, valid_utf8,
};
use crate::engine::{SnapshotModel, TimerSnapshot};
use crate::timer::{CycleModel, TimerCycle, TimerState};

verus! {

/// What a client asks of the server. No request carries data.
#[derive(Clone, Copy, Debug, PartialEq, Eq, Structural)]
pub enum Request {
    Start,
    Get,
    Pause,
    Resume,
    Stop,
}

/// Mathematical value of a [`Response`].
pub enum ResponseModel {
    Ack,
    Timer(SnapshotModel),
    Error(Seq<char>),
}

/// What the server answers: an acknowledgement, a snapshot of the timer, or
/// the reason why the request was refused.
#[derive(Debug, PartialEq, Eq)]
pub enum Response {
    /// The request was carried out.
    Ack,
    /// The timer as it stood when the request was handled.
    Timer(TimerSnapshot),
    /// The request was refused or could not be read; carries the reason.
    Error(String),
}

impl View for Response {
    type V = ResponseModel;

    open spec fn view(&self) -> ResponseModel {
        match *self {
            Response::Ack => ResponseModel::Ack,
            Response::Timer(shot) => ResponseModel::Timer(shot@),
            Response::Error(message) => ResponseModel::Error(message@),
        }
    }
}

impl Clone for Response {
    fn clone(&self) -> (copy: Self)
        ensures
            copy@ == self@,
    {
        match self {
            Response::Ack => Response::Ack,
            Response::Timer(shot) => Response::Timer(shot.clone()),
            Response::Error(message) => Response::Error(message.clone()),
        }
    }
}

/// Why bytes are not the payload of a message.
#[derive(Clone, Copy, Debug, PartialEq, Eq, Structural)]
pub enum DecodeError {
    /// There is no byte at all.
    Empty,
    /// The first byte names no kind of message.
    UnknownKind(u8),
    /// Bytes follow a message that is complete without them.
    TrailingBytes,
    /// A snapshot ends before its three numbers do.
    Truncated,
    /// The state byte of a snapshot names no state.
    UnknownState(u8),
    /// A name or a message is not UTF-8.
    InvalidText,
}

impl DecodeError {
    /// The text sent back for undecodable bytes.
    pub open spec fn message_spec(self) -> Seq<char> {
        match self {
            DecodeError::Empty => "empty message"@,
            DecodeError::UnknownKind(_) => "unknown kind of message"@,
            DecodeError::TrailingBytes => "bytes after the end of the message"@,
            DecodeError::Truncated => "message cut short"@,
            DecodeError::UnknownState(_) => "unknown timer state"@,
            DecodeError::InvalidText => "text is not UTF-8"@,
        }
    }

    /// The text sent back for undecodable bytes.
    pub fn message(&self) -> (text: &'static str)
        ensures
            text@ == self.message_spec(),
    {
        match self {
            DecodeError::Empty => "empty message",
            DecodeError::UnknownKind(_) => "unknown kind of message",
            DecodeError::TrailingBytes => "bytes after the end of the message",
            DecodeError::Truncated => "message cut short",
            DecodeError::UnknownState(_) => "unknown timer state",
            DecodeError::InvalidText => "text is not UTF-8",
        }
    }
}

/// The byte that tells the kind of a request.
pub open spec fn request_byte(request: Request) -> u8 {
    match request {
        Request::Start => 0,
        Request::Get => 1,
        Request::Pause => 2,
        Request::Resume => 3,
        Request::Stop => 4,
    }
}

/// The payload of a request.
pub open spec fn encode_request_spec(request: Request) -> Seq<u8> {
    seq![request_byte(request)]
}

/// The request that a payload holds, or why it holds none.
pub open spec fn decode_request_spec(bytes: Seq<u8>) -> Result<Request, DecodeError> {
    if bytes.len() == 0 {
        Err(DecodeError::Empty)
    } else if bytes[0] > 4 {
        Err(DecodeError::UnknownKind(bytes[0]))
    } else if bytes.len() > 1 {
        Err(DecodeError::TrailingBytes)
    } else if bytes[0] == 0 {
        Ok(Request::Start)
    } else if bytes[0] == 1 {
        Ok(Request::Get)
    } else if bytes[0] == 2 {
        Ok(Request::Pause)
    } else if bytes[0] == 3 {
        Ok(Request::Resume)
    } else {
        Ok(Request::Stop)
    }
}

/// The byte that tells a state.
pub open spec fn state_byte(state: TimerState) -> u8 {
    match state {
        TimerState::Stopped => 0,
        TimerState::Paused => 1,
        TimerState::Running => 2,
    }
}

/// The state that a byte tells, for a byte up to 2.
pub open spec fn state_of_byte(byte: u8) -> TimerState {
    if byte == 0 {
        TimerState::Stopped
    } else if byte == 1 {
        TimerState::Paused
    } else {
        TimerState::Running
    }
}

/// Bytes of a snapshot before the cycle's name: kind, state, three numbers.
pub open spec fn snapshot_head_len() -> int {
    26
}

/// The payload of a response.
pub open spec fn encode_response_spec(response: ResponseModel) -> Seq<u8> {
    match response {
        ResponseModel::Ack => seq![0u8],
        ResponseModel::Timer(shot) => seq![1u8, state_byte(shot.state)] + spec_u64_to_le_bytes(
            shot.cycle_index as u64,
        ) + spec_u64_to_le_bytes(shot.loop_count as u64) + spec_u64_to_le_bytes(
            shot.cycle.duration as u64,
        ) + encode_utf8(shot.cycle.name),
        ResponseModel::Error(message) => seq![2u8] + encode_utf8(message),
    }
}

/// The response that a payload holds, or why it holds none.
pub open spec fn decode_response_spec(bytes: Seq<u8>) -> Result<ResponseModel, DecodeError> {
    if bytes.len() == 0 {
        Err(DecodeError::Empty)
    } else if bytes[0] == 0 {
        if bytes.len() > 1 {
            Err(DecodeError::TrailingBytes)
        } else {
            Ok(ResponseModel::Ack)
        }
    } else if bytes[0] == 1 {
        if bytes.len() < snapshot_head_len() {
            Err(DecodeError::Truncated)
        } else if bytes[1] > 2 {
            Err(DecodeError::UnknownState(bytes[1]))
        } else if !valid_utf8(bytes.subrange(snapshot_head_len(), bytes.len() as int)) {
            Err(DecodeError::InvalidText)
        } else {
            Ok(
                ResponseModel::Timer(
                    SnapshotModel {
                        state: state_of_byte(bytes[1]),
                        cycle: CycleModel {
                            name: decode_utf8(
                                bytes.subrange(snapshot_head_len(), bytes.len() as int),
                            ),
                            duration: spec_u64_from_le_bytes(bytes.subrange(18, 26)) as nat,
                        },
                        cycle_index: spec_u64_from_le_bytes(bytes.subrange(2, 10)) as nat,
                        loop_count: spec_u64_from_le_bytes(bytes.subrange(10, 18)) as nat,
                    },
                ),
            )
        }
    } else if bytes[0] == 2 {
        if !valid_utf8(bytes.subrange(1, bytes.len() as int)) {
            Err(DecodeError::InvalidText)
        } else {
            Ok(ResponseModel::Error(decode_utf8(bytes.subrange(1, bytes.len() as int))))
        }
    } else {
        Err(DecodeError::UnknownKind(bytes[0]))
    }
}

/// What decoding a response returned, with the response taken by its value.
pub open spec fn decoded_view(decoded: Result<Response, DecodeError>) -> Result<
    ResponseModel,
    DecodeError,
> {
    match decoded {
        Ok(response) => Ok(response@),
        Err(e) => Err(e),
    }
}

/// Decoding the payload of a request gives the request back.
pub proof fn law_request_round_trip(request: Request)
    ensures
        decode_request_spec(encode_request_spec(request)) == Ok::<Request, DecodeError>(request),
{
}

/// Decoding the payload of a response gives the response back.
pub proof fn law_response_round_trip(response: Response)
    ensures
        decode_response_spec(encode_response_spec(response@)) == Ok::<
            ResponseModel,
            DecodeError,
        >(response@),
{
    lemma_auto_spec_u64_to_from_le_bytes();
    let bytes = encode_response_spec(response@);
    match response {
        Response::Ack => {},
        Response::Timer(shot) => {
            let name = encode_utf8(shot@.cycle.name);
            encode_utf8_valid_utf8(shot@.cycle.name);
            encode_utf8_decode_utf8(shot@.cycle.name);
            assert(bytes.subrange(2, 10) =~= spec_u64_to_le_bytes(shot.cycle_index));
            assert(bytes.subrange(10, 18) =~= spec_u64_to_le_bytes(shot.loop_count));
            assert(bytes.subrange(18, 26) =~= spec_u64_to_le_bytes(shot.cycle.duration));
            assert(bytes.subrange(26, bytes.len() as int) =~= name);
            assert(bytes[1] == state_byte(shot.state));
        },
        Response::Error(message) => {
            encode_utf8_valid_utf8(message@);
            encode_utf8_decode_utf8(message@);
            assert(bytes.subrange(1, bytes.len() as int) =~= encode_utf8(message@));
        },
    }
}

/// `core::str::from_utf8`, which accepts a run of bytes as text exactly when
/// the bytes are well-formed UTF-8 and then hands the same bytes back as a
/// string slice; the reason for a refusal is dropped.
#[verifier::external_body]
fn text_of_bytes(bytes: &[u8]) -> (text: Option<&str>)
    ensures
        text is Some <==> valid_utf8(bytes@),
        text matches Some(t) ==> t.spec_bytes() == bytes@,
{
    match core::str::from_utf8(bytes) {
        Ok(t) => Some(t),
        Err(_) => None,
    }
}

/// Reads bytes as text.
fn decode_text(bytes: &[u8]) -> (text: Option<String>)
    ensures
        text is Some <==> valid_utf8(bytes@),
        text matches Some(t) ==> t@ == decode_utf8(bytes@),
{
    match text_of_bytes(bytes) {
        None => None,
        Some(t) => {
            proof {
                encode_utf8_decode_utf8(t@);
            }
            Some(t.to_owned())
        },
    }
}

/// Encodes a request as the payload of a frame.
pub fn encode_request(request: Request) -> (bytes: Vec<u8>)
    ensures
        bytes@ == encode_request_spec(request),
{
    let byte: u8 = match request {
        Request::Start => 0,
        Request::Get => 1,
        Request::Pause => 2,
        Request::Resume => 3,
        Request::Stop => 4,
    };
    let mut bytes: Vec<u8> = Vec::new();
    bytes.push(byte);
    assert(bytes@ =~= encode_request_spec(request));
    bytes
}

/// Decodes the payload of a frame as a request. A payload is a request
/// exactly when it is one byte from 0 to 4.
pub fn decode_request(bytes: &[u8]) -> (decoded: Result<Request, DecodeError>)
    ensures
        decoded == decode_request_spec(bytes@),
{
    if bytes.len() == 0 {
        return Err(DecodeError::Empty);
    }
    let kind: u8 = bytes[0];
    if kind > 4 {
        Err(DecodeError::UnknownKind(kind))
    } else if bytes.len() > 1 {
        Err(DecodeError::TrailingBytes)
    } else if kind == 0 {
        Ok(Request::Start)
    } else if kind == 1 {
        Ok(Request::Get)
    } else if kind == 2 {
        Ok(Request::Pause)
    } else if kind == 3 {
        Ok(Request::Resume)
    } else {
        Ok(Request::Stop)
    }
}

/// Encodes a response as the payload of a frame.
pub fn encode_response(response: &Response) -> (bytes: Vec<u8>)
    ensures
        bytes@ == encode_response_spec(response@),
{
    let mut bytes: Vec<u8> = Vec::new();
    match response {
        Response::Ack => {
            bytes.push(0);
        },
        Response::Timer(shot) => {
            bytes.push(1);
            let state: u8 = match shot.state {
                TimerState::Stopped => 0,
                TimerState::Paused => 1,
                TimerState::Running => 2,
            };
            bytes.push(state);
            let index = u64_to_le_bytes(shot.cycle_index);
            bytes.extend_from_slice(index.as_slice());
            let loops = u64_to_le_bytes(shot.loop_count);
            bytes.extend_from_slice(loops.as_slice());
            let left = u64_to_le_bytes(shot.cycle.duration);
            bytes.extend_from_slice(left.as_slice());
            bytes.extend_from_slice(shot.cycle.name.as_str().as_bytes());
        },
        Response::Error(message) => {
            bytes.push(2);
            bytes.extend_from_slice(message.as_str().as_bytes());
        },
    }
    assert(bytes@ =~= encode_response_spec(response@));
    bytes
}

/// Decodes the payload of a frame as a response.
pub fn decode_response(bytes: &[u8]) -> (decoded: Result<Response, DecodeError>)
    ensures
        decoded_view(decoded) == decode_response_spec(bytes@),
{
    if bytes.len() == 0 {
        return Err(DecodeError::Empty);
    }
    let kind: u8 = bytes[0];
    if kind == 0 {
        if bytes.len() > 1 {
            Err(DecodeError::TrailingBytes)
        } else {
            Ok(Response::Ack)
        }
    } else if kind == 1 {
        if bytes.len() < 26 {
            return Err(DecodeError::Truncated);
        }
        let state_code: u8 = bytes[1];
        if state_code > 2 {
            return Err(DecodeError::UnknownState(state_code));
        }
        let state = if state_code == 0 {
            TimerState::Stopped
        } else if state_code == 1 {
            TimerState::Paused
        } else {
            TimerState::Running
        };
        match decode_text(slice_subrange(bytes, 26, bytes.len())) {
            None => Err(DecodeError::InvalidText),
            Some(name) => {
                let cycle_index = u64_from_le_bytes(slice_subrange(bytes, 2, 10));
                let loop_count = u64_from_le_bytes(slice_subrange(bytes, 10, 18));
                let duration = u64_from_le_bytes(slice_subrange(bytes, 18, 26));
                Ok(
                    Response::Timer(
                        TimerSnapshot {
                            state,
                            cycle: TimerCycle { name, duration },
                            cycle_index,
                            loop_count,
                        },
                    ),
                )
            },
        }
    } else if kind == 2 {
        match decode_text(slice_subrange(bytes, 1, bytes.len())) {
            None => Err(DecodeError::InvalidText),
            Some(message) => Ok(Response::Error(message)),
        }
    } else {
        Err(DecodeError::UnknownKind(kind))
    }
}

/// Bytes that a frame spends on the length of its payload.
pub open spec fn frame_head_len() -> int {
    8
}

/// The frame that carries a payload.
pub open spec fn frame_spec(payload: Seq<u8>) -> Seq<u8> {
    spec_u64_to_le_bytes(payload.len() as u64) + payload
}

/// What the beginning of a stream of bytes holds.
#[derive(Clone, Copy, Debug, PartialEq, Eq, Structural)]
pub enum FrameSplit {
    /// Less than a whole frame: more bytes have to arrive.
    Incomplete,
    /// A whole frame; the payload lies from position 8 up to `end`, where
    /// what follows the frame begins.
    Frame { end: usize },
    /// The announced length does not fit the machine's address space.
    TooLong,
}

/// The length that the first eight bytes of a stream announce.
pub open spec fn announced_len(stream: Seq<u8>) -> nat {
    spec_u64_from_le_bytes(stream.subrange(0, frame_head_len())) as nat
}

/// What the beginning of a stream of bytes holds.
pub open spec fn split_frame_spec(stream: Seq<u8>) -> FrameSplit {
    if stream.len() < frame_head_len() {
        FrameSplit::Incomplete
    } else if announced_len(stream) > usize::MAX - frame_head_len() {
        FrameSplit::TooLong
    } else if stream.len() < frame_head_len() + announced_len(stream) {
        FrameSplit::Incomplete
    } else {
        FrameSplit::Frame { end: (frame_head_len() + announced_len(stream)) as usize }
    }
}

/// A frame followed by anything is split where the frame ends, and between
/// its first eight bytes and that place lies the payload that was framed.
pub proof fn law_frame_round_trip(payload: Seq<u8>, rest: Seq<u8>)
    requires
        payload.len() + frame_head_len() <= usize::MAX,
    ensures
        split_frame_spec(frame_spec(payload) + rest) == (FrameSplit::Frame {
            end: (frame_head_len() + payload.len()) as usize,
        }),
        (frame_spec(payload) + rest).subrange(
            frame_head_len(),
            frame_head_len() + payload.len(),
        ) == payload,
{
    lemma_auto_spec_u64_to_from_le_bytes();
    let stream = frame_spec(payload) + rest;
    assert(stream.subrange(0, 8) =~= spec_u64_to_le_bytes(payload.len() as u64));
    assert(stream.subrange(8, 8 + payload.len() as int) =~= payload);
}

/// A frame that has not arrived in full is reported as incomplete.
pub proof fn law_frame_prefix_is_incomplete(payload: Seq<u8>, arrived: int)
    requires
        payload.len() + frame_head_len() <= usize::MAX,
        0 <= arrived < frame_spec(payload).len(),
    ensures
        split_frame_spec(frame_spec(payload).subrange(0, arrived)) == FrameSplit::Incomplete,
{
    lemma_auto_spec_u64_to_from_le_bytes();
    let stream = frame_spec(payload).subrange(0, arrived);
    if arrived >= 8 {
        assert(stream.subrange(0, 8) =~= spec_u64_to_le_bytes(payload.len() as u64));
    }
}

/// Puts a payload into a frame.
pub fn frame(payload: &[u8]) -> (framed: Vec<u8>)
    ensures
        framed@ == frame_spec(payload@),
{
    let mut framed = u64_to_le_bytes(payload.len() as u64);
    framed.extend_from_slice(payload);
    framed
}

/// Looks for a whole frame at the beginning of the bytes received so far.
pub fn split_frame(stream: &[u8]) -> (split: FrameSplit)
    ensures
        split == split_frame_spec(stream@),
        split matches FrameSplit::Frame { end } ==> 8 <= end <= stream@.len(),
{
    if stream.len() < 8 {
        return FrameSplit::Incomplete;
    }
    let announced: u64 = u64_from_le_bytes(slice_subrange(stream, 0, 8));
    let room: usize = usize::MAX - 8;
    if announced > room as u64 {
        return FrameSplit::TooLong;
    }
    let length: usize = announced as usize;
    if stream.len() - 8 < length {
        return FrameSplit::Incomplete;
    }
    FrameSplit::Frame { end: 8 + length }
}

/// Copies the payload out of a stream that begins with a whole frame.
pub fn payload_of(stream: &[u8], end: usize) -> (payload: Vec<u8>)
    requires
        split_frame_spec(stream@) == (FrameSplit::Frame { end }),
    ensures
        payload@ == stream@.subrange(frame_head_len(), end as int),
{
    slice_to_vec(slice_subrange(stream, 8, end))
}

} // verus!
