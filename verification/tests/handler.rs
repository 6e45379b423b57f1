use comodoro::engine::{Timer, TimerSnapshot};
use comodoro::handler::{conclude, handle_payload, handle_request, reject, Handled};
use comodoro::timer::{TimerConfig, TimerCycle, TimerError, TimerEvent, TimerLoop, TimerState};
use comodoro::wire::{
    decode_response, encode_request, payload_of, split_frame, DecodeError, FrameSplit, Request,
    Response,
};

fn fresh() -> Timer {
    let cycles = vec![TimerCycle::new("work", 5), TimerCycle::new("break", 3)];
    Timer::new(TimerConfig::new(cycles, TimerLoop::Fixed(1)).unwrap()).unwrap()
}

fn unframed(frame: &[u8]) -> Response {
    match split_frame(frame) {
        FrameSplit::Frame { end } => {
            assert_eq!(end, frame.len());
            decode_response(&payload_of(frame, end)).unwrap()
        }
        other => panic!("no whole frame: {other:?}"),
    }
}

#[test]
fn accepted_operations_are_acknowledged_with_their_events() {
    let mut timer = fresh();
    assert_eq!(
        handle_request(&mut timer, Request::Start),
        Handled {
            response: Response::Ack,
            events: vec![TimerEvent::Started, TimerEvent::Began(TimerCycle::new("work", 5))],
        }
    );
    assert_eq!(
        handle_request(&mut timer, Request::Pause),
        Handled { response: Response::Ack, events: vec![TimerEvent::Paused(TimerCycle::new("work", 5))] }
    );
    assert_eq!(
        handle_request(&mut timer, Request::Resume),
        Handled { response: Response::Ack, events: vec![TimerEvent::Resumed(TimerCycle::new("work", 5))] }
    );
    assert_eq!(
        handle_request(&mut timer, Request::Stop),
        Handled { response: Response::Ack, events: vec![TimerEvent::Stopped] }
    );
}

#[test]
fn get_answers_with_the_snapshot_and_no_event() {
    let mut timer = fresh();
    timer.start().unwrap();
    timer.tick();
    let handled = handle_request(&mut timer, Request::Get);
    assert_eq!(
        handled.response,
        Response::Timer(TimerSnapshot {
            state: TimerState::Running,
            cycle: TimerCycle::new("work", 4),
            cycle_index: 0,
            loop_count: 0,
        })
    );
    assert!(handled.events.is_empty());
    assert_eq!(timer.remaining(), 4);
}

#[test]
fn refused_operations_are_answered_with_the_reason() {
    let mut timer = fresh();
    for (request, reason) in [
        (Request::Pause, "timer not running"),
        (Request::Resume, "timer not paused"),
        (Request::Stop, "timer not started"),
    ] {
        let before = timer.get();
        let handled = handle_request(&mut timer, request);
        assert_eq!(handled.response, Response::Error(reason.to_string()));
        assert!(handled.events.is_empty());
        assert_eq!(timer.get(), before);
    }
    timer.start().unwrap();
    let handled = handle_request(&mut timer, Request::Start);
    assert_eq!(handled.response, Response::Error("timer already started".to_string()));
    assert!(handled.events.is_empty());
}

#[test]
fn outcome_becomes_answer() {
    assert_eq!(
        conclude(Ok(vec![TimerEvent::Stopped])),
        Handled { response: Response::Ack, events: vec![TimerEvent::Stopped] }
    );
    assert_eq!(
        conclude(Err(TimerError::NotPaused)),
        Handled { response: Response::Error("timer not paused".to_string()), events: vec![] }
    );
    assert_eq!(reject(DecodeError::Empty), Response::Error("empty message".to_string()));
}

#[test]
fn payload_is_answered_with_a_frame() {
    let mut timer = fresh();
    let reply = handle_payload(&mut timer, &encode_request(Request::Start));
    assert_eq!(unframed(&reply.frame), Response::Ack);
    assert_eq!(reply.events.len(), 2);
    let reply = handle_payload(&mut timer, &encode_request(Request::Get));
    assert_eq!(
        unframed(&reply.frame),
        Response::Timer(TimerSnapshot {
            state: TimerState::Running,
            cycle: TimerCycle::new("work", 5),
            cycle_index: 0,
            loop_count: 0,
        })
    );
    assert!(reply.events.is_empty());
}

#[test]
fn malformed_payload_is_answered_with_an_error_and_changes_nothing() {
    let mut timer = fresh();
    timer.start().unwrap();
    let before = timer.get();
    let reply = handle_payload(&mut timer, &[9, 9, 9]);
    assert_eq!(unframed(&reply.frame), Response::Error("unknown kind of message".to_string()));
    assert!(reply.events.is_empty());
    let reply = handle_payload(&mut timer, &[]);
    assert_eq!(unframed(&reply.frame), Response::Error("empty message".to_string()));
    let reply = handle_payload(&mut timer, &[4, 0]);
    assert_eq!(
        unframed(&reply.frame),
        Response::Error("bytes after the end of the message".to_string())
    );
    assert_eq!(timer.get(), before);
}
