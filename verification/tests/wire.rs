use comodoro::engine::TimerSnapshot;
use comodoro::timer::{TimerCycle, TimerState};
use comodoro::wire::{
    decode_request, decode_response, encode_request, encode_response, frame, payload_of,
    split_frame, DecodeError, FrameSplit, Request, Response,
};

fn snapshot(state: TimerState, name: &str, left: u64, index: u64, loops: u64) -> TimerSnapshot {
    TimerSnapshot { state, cycle: TimerCycle::new(name, left), cycle_index: index, loop_count: loops }
}

#[test]
fn every_request_survives_the_round_trip() {
    let all = [Request::Start, Request::Get, Request::Pause, Request::Resume, Request::Stop];
    for (code, request) in all.iter().enumerate() {
        let bytes = encode_request(*request);
        assert_eq!(bytes, vec![code as u8]);
        assert_eq!(decode_request(&bytes), Ok(*request));
    }
}

#[test]
fn every_response_survives_the_round_trip() {
    let responses = vec![
        Response::Ack,
        Response::Timer(snapshot(TimerState::Running, "work", 1499, 0, 0)),
        Response::Timer(snapshot(TimerState::Paused, "Short break", 1, 3, u64::MAX)),
        Response::Timer(snapshot(TimerState::Stopped, "", 0, u64::MAX, 7)),
        Response::Timer(snapshot(TimerState::Running, "caf\u{e9} \u{1f345}", 65536, 2, 1)),
        Response::Error(String::from("timer not running")),
        Response::Error(String::new()),
    ];
    for response in responses {
        let bytes = encode_response(&response);
        assert_eq!(decode_response(&bytes), Ok(response.clone()));
    }
}

#[test]
fn snapshot_layout() {
    let bytes = encode_response(&Response::Timer(snapshot(TimerState::Running, "ab", 258, 1, 2)));
    let mut expected = vec![1u8, 2u8];
    expected.extend_from_slice(&[1, 0, 0, 0, 0, 0, 0, 0]);
    expected.extend_from_slice(&[2, 0, 0, 0, 0, 0, 0, 0]);
    expected.extend_from_slice(&[2, 1, 0, 0, 0, 0, 0, 0]);
    expected.extend_from_slice(b"ab");
    assert_eq!(bytes, expected);
    assert_eq!(encode_response(&Response::Ack), vec![0u8]);
    assert_eq!(encode_response(&Response::Error(String::from("no"))), vec![2u8, b'n', b'o']);
}

#[test]
fn undecodable_requests() {
    assert_eq!(decode_request(&[]), Err(DecodeError::Empty));
    assert_eq!(decode_request(&[5]), Err(DecodeError::UnknownKind(5)));
    assert_eq!(decode_request(&[200, 1]), Err(DecodeError::UnknownKind(200)));
    assert_eq!(decode_request(&[1, 0]), Err(DecodeError::TrailingBytes));
}

#[test]
fn undecodable_responses() {
    assert_eq!(decode_response(&[]), Err(DecodeError::Empty));
    assert_eq!(decode_response(&[3]), Err(DecodeError::UnknownKind(3)));
    assert_eq!(decode_response(&[0, 0]), Err(DecodeError::TrailingBytes));
    assert_eq!(decode_response(&[1, 2, 0, 0]), Err(DecodeError::Truncated));
    let mut bad_state = encode_response(&Response::Timer(snapshot(TimerState::Running, "a", 1, 0, 0)));
    bad_state[1] = 3;
    assert_eq!(decode_response(&bad_state), Err(DecodeError::UnknownState(3)));
    let mut bad_name = encode_response(&Response::Timer(snapshot(TimerState::Running, "a", 1, 0, 0)));
    bad_name.push(0xff);
    assert_eq!(decode_response(&bad_name), Err(DecodeError::InvalidText));
    assert_eq!(decode_response(&[2, 0xc3]), Err(DecodeError::InvalidText));
}

#[test]
fn decode_error_messages() {
    assert_eq!(DecodeError::Empty.message(), "empty message");
    assert_eq!(DecodeError::UnknownKind(9).message(), "unknown kind of message");
    assert_eq!(DecodeError::TrailingBytes.message(), "bytes after the end of the message");
    assert_eq!(DecodeError::Truncated.message(), "message cut short");
    assert_eq!(DecodeError::UnknownState(9).message(), "unknown timer state");
    assert_eq!(DecodeError::InvalidText.message(), "text is not UTF-8");
}

#[test]
fn frame_is_length_then_payload() {
    assert_eq!(frame(&[7, 8, 9]), vec![3, 0, 0, 0, 0, 0, 0, 0, 7, 8, 9]);
    assert_eq!(frame(&[]), vec![0, 0, 0, 0, 0, 0, 0, 0]);
}

#[test]
fn frame_is_found_once_it_is_whole() {
    let framed = frame(&[7, 8, 9]);
    for arrived in 0..framed.len() {
        assert_eq!(split_frame(&framed[..arrived]), FrameSplit::Incomplete);
    }
    assert_eq!(split_frame(&framed), FrameSplit::Frame { end: 11 });
    let mut stream = framed.clone();
    stream.extend_from_slice(&frame(&[1]));
    assert_eq!(split_frame(&stream), FrameSplit::Frame { end: 11 });
    assert_eq!(payload_of(&stream, 11), vec![7, 8, 9]);
    assert_eq!(split_frame(&stream[11..]), FrameSplit::Frame { end: 9 });
    assert_eq!(payload_of(&stream[11..], 9), vec![1]);
}

#[test]
fn frame_that_cannot_fit_is_too_long() {
    assert_eq!(split_frame(&[0xff; 8]), FrameSplit::TooLong);
    assert_eq!(split_frame(&[0xff; 20]), FrameSplit::TooLong);
}
