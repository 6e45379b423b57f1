//! One connection, seen from either end, as a function of the bytes that
//! have arrived on it: the server answers every whole frame in order, the
//! client waits for the one frame that answers its request.
//!
//! Reading and writing are left to the caller, who hands over what was read
//! and sends what comes back.

use vstd::prelude::*;
use vstd::slice::slice_subrange;
use crate::engine::{Timer, TimerModel};
use crate::handler::handle_payload;
use crate::timer::{EventModel, TimerEvent};
use vstd::bytes::lemma_auto_spec_u64_to_from_le_bytes;
use crate::wire::{
    decode_response, decode_response_spec, decoded_view, encode_request, encode_request_spec,
    encode_response_spec, frame, frame_head_len, frame_spec, law_frame_round_trip,
    law_request_round_trip, law_response_round_trip, payload_of, split_frame, split_frame_spec,
    DecodeError, FrameSplit, Request, Response, ResponseModel,
};

verus! {

/// Mathematical value of a [`Served`], with the timer as the frames left it.
pub struct ServedModel {
    pub timer: TimerModel,
    pub replies: Seq<u8>,
    pub events: Seq<EventModel>,
    pub consumed: nat,
    pub broken: bool,
}

/// What serving the bytes received so far produced: the frames to send back,
/// one after the other; the events for the hooks, in order; how many bytes
/// were used up, so that the caller keeps the rest for later; and whether the
/// connection is broken, which it is when a frame announces a length that no
/// machine can hold.
#[derive(Debug, PartialEq, Eq)]
pub struct Served {
    pub replies: Vec<u8>,
    pub events: Vec<TimerEvent>,
    pub consumed: usize,
    pub broken: bool,
}

impl TimerModel {
    /// What the bytes received so far come to: every whole frame is answered
    /// in turn, each by the timer as the frames before it left it, up to the
    /// first frame that has not arrived in full or cannot be held.
    pub open spec fn served(self, stream: Seq<u8>) -> ServedModel
        decreases stream.len(),
    {
        match split_frame_spec(stream) {
            FrameSplit::Incomplete => ServedModel {
                timer: self,
                replies: Seq::<u8>::empty(),
                events: Seq::<EventModel>::empty(),
                consumed: 0,
                broken: false,
            },
            FrameSplit::TooLong => ServedModel {
                timer: self,
                replies: Seq::<u8>::empty(),
                events: Seq::<EventModel>::empty(),
                consumed: 0,
                broken: true,
            },
            FrameSplit::Frame { end } => {
                let first = self.answered(stream.subrange(frame_head_len(), end as int));
                let rest = first.timer.served(stream.subrange(end as int, stream.len() as int));
                ServedModel {
                    timer: rest.timer,
                    replies: first.frame + rest.replies,
                    events: first.events + rest.events,
                    consumed: (end + rest.consumed) as nat,
                    broken: rest.broken,
                }
            },
        }
    }
}

/// Serves the bytes received so far on a connection of the server.
pub fn serve(timer: &mut Timer, stream: &[u8]) -> (served: Served)
    requires
        old(timer).wf(),
    ensures
        final(timer).wf(),
        final(timer)@ == old(timer)@.served(stream@).timer,
        served.replies@ == old(timer)@.served(stream@).replies,
        served.events.deep_view() == old(timer)@.served(stream@).events,
        served.consumed == old(timer)@.served(stream@).consumed,
        served.broken == old(timer)@.served(stream@).broken,
        served.consumed <= stream@.len(),
{
    let mut replies: Vec<u8> = Vec::new();
    let mut events: Vec<TimerEvent> = Vec::new();
    let mut at: usize = 0;
    let mut broken = false;
    let ghost whole = old(timer)@.served(stream@);
    assert(stream@.subrange(0, stream@.len() as int) =~= stream@);
    assert(events.deep_view() =~= Seq::<EventModel>::empty());
    loop
        invariant_except_break
            !broken,
            ({
                let rest = timer@.served(stream@.subrange(at as int, stream@.len() as int));
                &&& whole.timer == rest.timer
                &&& whole.replies == replies@ + rest.replies
                &&& whole.events == events.deep_view() + rest.events
                &&& whole.consumed == at + rest.consumed
                &&& whole.broken == rest.broken
            }),
        invariant
            timer.wf(),
            at <= stream@.len(),
        ensures
            timer.wf(),
            at <= stream@.len(),
            whole.timer == timer@,
            whole.replies == replies@,
            whole.events == events.deep_view(),
            whole.consumed == at,
            whole.broken == broken,
        decreases stream@.len() - at,
    {
        let pending = slice_subrange(stream, at, stream.len());
        match split_frame(pending) {
            FrameSplit::Incomplete => {
                assert(replies@ + Seq::<u8>::empty() =~= replies@);
                assert(events.deep_view() + Seq::<EventModel>::empty() =~= events.deep_view());
                break ;
            },
            FrameSplit::TooLong => {
                assert(replies@ + Seq::<u8>::empty() =~= replies@);
                assert(events.deep_view() + Seq::<EventModel>::empty() =~= events.deep_view());
                broken = true;
                break ;
            },
            FrameSplit::Frame { end } => {
                let ghost before = timer@;
                let ghost sent = replies@;
                let ghost told = events.deep_view();
                let payload = slice_subrange(pending, 8, end);
                let mut reply = handle_payload(timer, payload);
                replies.extend_from_slice(reply.frame.as_slice());
                let ghost new_events = reply.events.deep_view();
                events.append(&mut reply.events);
                proof {
                    let first = before.answered(pending@.subrange(8, end as int));
                    let after = pending@.subrange(end as int, pending@.len() as int);
                    let rest = first.timer.served(after);
                    assert(after =~= stream@.subrange(at + end, stream@.len() as int));
                    assert(events.deep_view() =~= told + new_events);
                    assert(sent + (first.frame + rest.replies) =~= (sent + first.frame)
                        + rest.replies);
                    assert(told + (first.events + rest.events) =~= (told + first.events)
                        + rest.events);
                }
                at = at + end;
            },
        }
    }
    Served { replies, events, consumed: at, broken }
}

/// The frame that carries a request to the server.
pub open spec fn request_frame_spec(request: Request) -> Seq<u8> {
    frame_spec(encode_request_spec(request))
}

/// Builds the frame that carries a request to the server.
pub fn request_frame(request: Request) -> (framed: Vec<u8>)
    ensures
        framed@ == request_frame_spec(request),
{
    let payload = encode_request(request);
    frame(payload.as_slice())
}

/// What a client has received of the answer to its request.
#[derive(Debug, PartialEq, Eq)]
pub enum Received {
    /// Less than a whole frame: more bytes have to arrive.
    Incomplete,
    /// A frame that announces a length that no machine can hold.
    TooLong,
    /// A whole frame: the response that it holds, or why it holds none; the
    /// frame ends at `end`.
    Answer { response: Result<Response, DecodeError>, end: usize },
}

/// Mathematical value of a [`Received`].
pub enum ReceivedModel {
    Incomplete,
    TooLong,
    Answer { response: Result<ResponseModel, DecodeError>, end: usize },
}

impl View for Received {
    type V = ReceivedModel;

    open spec fn view(&self) -> ReceivedModel {
        match *self {
            Received::Incomplete => ReceivedModel::Incomplete,
            Received::TooLong => ReceivedModel::TooLong,
            Received::Answer { response, end } => ReceivedModel::Answer {
                response: decoded_view(response),
                end,
            },
        }
    }
}

/// What the bytes that a client has received so far hold.
pub open spec fn received_spec(stream: Seq<u8>) -> ReceivedModel {
    match split_frame_spec(stream) {
        FrameSplit::Incomplete => ReceivedModel::Incomplete,
        FrameSplit::TooLong => ReceivedModel::TooLong,
        FrameSplit::Frame { end } => ReceivedModel::Answer {
            response: decode_response_spec(stream.subrange(frame_head_len(), end as int)),
            end,
        },
    }
}

/// Reads the answer out of the bytes that a client has received so far.
pub fn receive(stream: &[u8]) -> (received: Received)
    ensures
        received@ == received_spec(stream@),
{
    match split_frame(stream) {
        FrameSplit::Incomplete => Received::Incomplete,
        FrameSplit::TooLong => Received::TooLong,
        FrameSplit::Frame { end } => {
            let payload = payload_of(stream, end);
            Received::Answer { response: decode_response(payload.as_slice()), end }
        },
    }
}

/// A stream that is exactly one frame is served by answering its payload, and
/// is used up by that.
pub proof fn lemma_one_frame_served(timer: TimerModel, payload: Seq<u8>)
    requires
        payload.len() + frame_head_len() <= usize::MAX,
    ensures
        ({
            let served = timer.served(frame_spec(payload));
            let answer = timer.answered(payload);
            &&& served.timer == answer.timer
            &&& served.replies == answer.frame
            &&& served.events == answer.events
            &&& served.consumed == frame_spec(payload).len()
            &&& !served.broken
        }),
{
    let stream = frame_spec(payload);
    let empty = Seq::<u8>::empty();
    lemma_auto_spec_u64_to_from_le_bytes();
    assert(stream.len() == 8 + payload.len());
    assert(stream + empty =~= stream);
    law_frame_round_trip(payload, empty);
    let end = 8 + payload.len() as int;
    assert(split_frame_spec(stream) == (FrameSplit::Frame { end: end as usize }));
    assert(stream.subrange(8, end) =~= payload);
    let after = stream.subrange(end, stream.len() as int);
    assert(after.len() == 0);
    let first = timer.answered(payload);
    assert(split_frame_spec(after) == FrameSplit::Incomplete);
    let rest = first.timer.served(after);
    assert(rest.replies =~= empty);
    assert(rest.events =~= Seq::<EventModel>::empty());
    assert(first.frame + rest.replies =~= first.frame);
    assert(first.events + rest.events =~= first.events);
}

/// One request yields one response: the frame of a request, served by a
/// timer, changes the timer as the request says and is answered by one
/// frame, and the client that receives that frame reads the response to the
/// request out of it.
pub proof fn law_exchange(timer: TimerModel, request: Request, response: Response)
    requires
        response@ == timer.response_to(request),
        encode_response_spec(response@).len() + frame_head_len() <= usize::MAX,
    ensures
        ({
            let served = timer.served(request_frame_spec(request));
            &&& served.timer == timer.after_request(request)
            &&& served.events == timer.events_of_request(request)
            &&& served.consumed == request_frame_spec(request).len()
            &&& !served.broken
            &&& served.replies == frame_spec(encode_response_spec(response@))
            &&& received_spec(served.replies) == ReceivedModel::Answer {
                response: Ok(response@),
                end: served.replies.len() as usize,
            }
        }),
{
    let payload = encode_request_spec(request);
    lemma_one_frame_served(timer, payload);
    law_request_round_trip(request);
    let answer = encode_response_spec(response@);
    let empty = Seq::<u8>::empty();
    lemma_auto_spec_u64_to_from_le_bytes();
    law_response_round_trip(response);
    assert(frame_spec(answer) + empty =~= frame_spec(answer));
    law_frame_round_trip(answer, empty);
    assert(frame_spec(answer).len() == 8 + answer.len());
}

} // verus!
