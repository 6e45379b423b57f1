//! The request handler: what one request does to the timer, which events it
//! causes and what is answered.
//!
//! A caller that shares the timer holds its lock for the one call that
//! applies the request, and writes the answer after it has let go of it.

use vstd::prelude::*;
use crate::engine::{Timer, TimerModel};
use crate::timer::{EventModel, TimerError, TimerEvent};
use crate::wire::{
    decode_request, decode_request_spec, encode_response, encode_response_spec, frame,
    frame_spec, DecodeError, Request, Response, ResponseModel,
};

verus! {

impl TimerModel {
    /// Why a request is refused in the timer's present state, if it is.
    pub open spec fn request_error(self, request: Request) -> Option<TimerError> {
        match request {
            Request::Start => self.start_error(),
            Request::Get => None,
            Request::Pause => self.pause_error(),
            Request::Resume => self.resume_error(),
            Request::Stop => self.stop_error(),
        }
    }

    /// The timer after a request: changed as the operation says where the
    /// request is accepted, unchanged where it is refused.
    pub open spec fn after_request(self, request: Request) -> TimerModel {
        if self.request_error(request) is Some {
            self
        } else {
            match request {
                Request::Start => self.started(),
                Request::Get => self,
                Request::Pause => self.paused(),
                Request::Resume => self.resumed(),
                Request::Stop => self.stopped(),
            }
        }
    }

    /// The events that a request causes; none where it is refused.
    pub open spec fn events_of_request(self, request: Request) -> Seq<EventModel> {
        if self.request_error(request) is Some {
            Seq::<EventModel>::empty()
        } else {
            match request {
                Request::Start => self.start_events(),
                Request::Get => Seq::<EventModel>::empty(),
                Request::Pause => self.pause_events(),
                Request::Resume => self.resume_events(),
                Request::Stop => self.stop_events(),
            }
        }
    }

    /// The answer to a request: the snapshot for `Get`, an acknowledgement
    /// for an operation that was accepted, the reason for one that was
    /// refused.
    pub open spec fn response_to(self, request: Request) -> ResponseModel {
        match self.request_error(request) {
            Some(e) => ResponseModel::Error(e.message_spec()),
            None => match request {
                Request::Get => ResponseModel::Timer(self.snapshot()),
                _ => ResponseModel::Ack,
            },
        }
    }
}

/// Mathematical value of a [`Reply`], with the timer as the payload left it.
pub struct ReplyModel {
    pub timer: TimerModel,
    pub frame: Seq<u8>,
    pub events: Seq<EventModel>,
}

impl TimerModel {
    /// What the payload of one frame comes to: a request is applied and
    /// answered; bytes that are no request are answered with the reason and
    /// leave the timer as it was.
    pub open spec fn answered(self, payload: Seq<u8>) -> ReplyModel {
        match decode_request_spec(payload) {
            Ok(request) => ReplyModel {
                timer: self.after_request(request),
                frame: frame_spec(encode_response_spec(self.response_to(request))),
                events: self.events_of_request(request),
            },
            Err(e) => ReplyModel {
                timer: self,
                frame: frame_spec(encode_response_spec(ResponseModel::Error(e.message_spec()))),
                events: Seq::<EventModel>::empty(),
            },
        }
    }
}

/// What handling a request produced: the answer for the client and the
/// events for the hooks, in the order in which they happened.
#[derive(Debug, PartialEq, Eq)]
pub struct Handled {
    pub response: Response,
    pub events: Vec<TimerEvent>,
}

/// What handling the payload of a frame produced: the frame to send back and
/// the events for the hooks.
#[derive(Debug, PartialEq, Eq)]
pub struct Reply {
    pub frame: Vec<u8>,
    pub events: Vec<TimerEvent>,
}

/// Turns the outcome of an operation into an answer and its events.
pub fn conclude(outcome: Result<Vec<TimerEvent>, TimerError>) -> (handled: Handled)
    ensures
        match outcome {
            Ok(events) => handled.response@ == ResponseModel::Ack && handled.events == events,
            Err(e) => handled.response@ == ResponseModel::Error(e.message_spec())
                && handled.events@.len() == 0,
        },
{
    match outcome {
        Ok(events) => Handled { response: Response::Ack, events },
        Err(e) => Handled {
            response: Response::Error(e.message().to_owned()),
            events: Vec::new(),
        },
    }
}

/// Applies one request to the timer. Exactly one answer comes out of it;
/// a refused request leaves the timer as it was.
pub fn handle_request(timer: &mut Timer, request: Request) -> (handled: Handled)
    requires
        old(timer).wf(),
    ensures
        final(timer).wf(),
        final(timer)@ == old(timer)@.after_request(request),
        old(timer)@.request_error(request) is Some ==> *final(timer) == *old(timer),
        handled.response@ == old(timer)@.response_to(request),
        handled.events.deep_view() == old(timer)@.events_of_request(request),
{
    let handled = match request {
        Request::Start => conclude(timer.start()),
        Request::Get => Handled { response: Response::Timer(timer.get()), events: Vec::new() },
        Request::Pause => conclude(timer.pause()),
        Request::Resume => conclude(timer.resume()),
        Request::Stop => conclude(timer.stop()),
    };
    assert(handled.events.deep_view() =~= old(timer)@.events_of_request(request));
    handled
}

/// The answer to bytes that are no request.
pub fn reject(error: DecodeError) -> (response: Response)
    ensures
        response@ == ResponseModel::Error(error.message_spec()),
{
    Response::Error(error.message().to_owned())
}

/// Handles the payload of one frame: decodes it as a request, applies the
/// request and frames the answer. Bytes that are no request are answered
/// with an error and leave the timer as it was.
pub fn handle_payload(timer: &mut Timer, payload: &[u8]) -> (reply: Reply)
    requires
        old(timer).wf(),
    ensures
        final(timer).wf(),
        final(timer)@ == old(timer)@.answered(payload@).timer,
        decode_request_spec(payload@) is Err ==> *final(timer) == *old(timer),
        reply.frame@ == old(timer)@.answered(payload@).frame,
        reply.events.deep_view() == old(timer)@.answered(payload@).events,
{
    match decode_request(payload) {
        Ok(request) => {
            let handled = handle_request(timer, request);
            let bytes = encode_response(&handled.response);
            Reply { frame: frame(bytes.as_slice()), events: handled.events }
        },
        Err(e) => {
            let bytes = encode_response(&reject(e));
            let events: Vec<TimerEvent> = Vec::new();
            assert(events.deep_view() =~= Seq::<EventModel>::empty());
            Reply { frame: frame(bytes.as_slice()), events }
        },
    }
}

} // verus!
