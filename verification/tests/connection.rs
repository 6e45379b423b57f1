use comodoro::connection::{receive, request_frame, serve, Received, Served};
use comodoro::engine::{Timer, TimerSnapshot};
use comodoro::timer::{TimerConfig, TimerCycle, TimerEvent, TimerLoop, TimerState};
use comodoro::wire::{encode_response, frame, DecodeError, Request, Response};

fn fresh() -> Timer {
    let cycles = vec![TimerCycle::new("work", 5)];
    Timer::new(TimerConfig::new(cycles, TimerLoop::Infinite).unwrap()).unwrap()
}

fn framed(response: &Response) -> Vec<u8> {
    frame(&encode_response(response))
}

#[test]
fn request_frame_layout() {
    assert_eq!(request_frame(Request::Start), vec![1, 0, 0, 0, 0, 0, 0, 0, 0]);
    assert_eq!(request_frame(Request::Stop), vec![1, 0, 0, 0, 0, 0, 0, 0, 4]);
}

#[test]
fn one_request_yields_one_response() {
    let mut timer = fresh();
    let stream = request_frame(Request::Start);
    let served = serve(&mut timer, &stream);
    assert_eq!(
        served,
        Served {
            replies: framed(&Response::Ack),
            events: vec![TimerEvent::Started, TimerEvent::Began(TimerCycle::new("work", 5))],
            consumed: stream.len(),
            broken: false,
        }
    );
    assert_eq!(
        receive(&served.replies),
        Received::Answer { response: Ok(Response::Ack), end: served.replies.len() }
    );
    assert_eq!(timer.state(), TimerState::Running);
}

#[test]
fn frames_are_answered_in_order_and_the_rest_is_kept() {
    let mut timer = fresh();
    let mut stream = request_frame(Request::Pause);
    stream.extend(request_frame(Request::Start));
    stream.extend(request_frame(Request::Get));
    let whole = stream.len();
    stream.extend_from_slice(&request_frame(Request::Stop)[..5]);
    let served = serve(&mut timer, &stream);
    let mut replies = framed(&Response::Error("timer not running".to_string()));
    replies.extend(framed(&Response::Ack));
    replies.extend(framed(&Response::Timer(TimerSnapshot {
        state: TimerState::Running,
        cycle: TimerCycle::new("work", 5),
        cycle_index: 0,
        loop_count: 0,
    })));
    assert_eq!(served.replies, replies);
    assert_eq!(served.consumed, whole);
    assert!(!served.broken);
    assert_eq!(served.events.len(), 2);
    assert_eq!(timer.state(), TimerState::Running);
}

#[test]
fn nothing_is_served_before_a_frame_is_whole() {
    let mut timer = fresh();
    let stream = request_frame(Request::Start);
    for arrived in 0..stream.len() {
        let served = serve(&mut timer, &stream[..arrived]);
        assert_eq!(
            served,
            Served { replies: vec![], events: vec![], consumed: 0, broken: false }
        );
    }
    assert_eq!(timer.state(), TimerState::Stopped);
}

#[test]
fn malformed_frame_is_answered_and_the_connection_goes_on() {
    let mut timer = fresh();
    let mut stream = frame(&[42]);
    stream.extend(request_frame(Request::Start));
    let served = serve(&mut timer, &stream);
    let mut replies = framed(&Response::Error("unknown kind of message".to_string()));
    replies.extend(framed(&Response::Ack));
    assert_eq!(served.replies, replies);
    assert_eq!(served.consumed, stream.len());
    assert_eq!(timer.state(), TimerState::Running);
}

#[test]
fn frame_that_cannot_be_held_breaks_the_connection() {
    let mut timer = fresh();
    let mut stream = request_frame(Request::Start);
    let first = stream.len();
    stream.extend_from_slice(&[0xff; 8]);
    stream.extend(request_frame(Request::Stop));
    let served = serve(&mut timer, &stream);
    assert_eq!(served.replies, framed(&Response::Ack));
    assert_eq!(served.consumed, first);
    assert!(served.broken);
    assert_eq!(timer.state(), TimerState::Running);
}

#[test]
fn client_waits_for_a_whole_frame() {
    let answer = framed(&Response::Error("timer not paused".to_string()));
    for arrived in 0..answer.len() {
        assert_eq!(receive(&answer[..arrived]), Received::Incomplete);
    }
    assert_eq!(
        receive(&answer),
        Received::Answer {
            response: Ok(Response::Error("timer not paused".to_string())),
            end: answer.len()
        }
    );
    assert_eq!(receive(&[0xff; 9]), Received::TooLong);
    assert_eq!(
        receive(&frame(&[7])),
        Received::Answer { response: Err(DecodeError::UnknownKind(7)), end: 9 }
    );
    assert_eq!(
        receive(&frame(&[])),
        Received::Answer { response: Err(DecodeError::Empty), end: 8 }
    );
}
