//! Properties relating the handshake and loop operations, proved over the
//! spec functions their contracts are stated with.

use vstd::prelude::*;

use crate::dispatch::{Action, Event, reads_inbound, step_result, step_state};
use crate::identity::valid_client_id;
use crate::session::{Phase, ProtocolError, SessionModel, SignalingError, reply_result};
use crate::wire::{Frame, ack_text, decimal, hello_text, is_ack};

verus! {

/// Registration round trip: after `HELLO <id>` has been sent, a reply that is
/// exactly the text `HELLO` registers the client, a close frame yields
/// `NoResponse`, and any other frame yields `UnexpectedResponse` carrying that
/// frame; on both errors the phase is left as it was.
pub proof fn registration_round_trip(s: SessionModel, id: u16, reply: Frame)
    requires
        s.wf(),
        s.phase == Phase::Connecting,
        valid_client_id(id as int),
    ensures
        hello_text(id as nat) == seq!['H', 'E', 'L', 'L', 'O', ' '] + decimal(id as nat),
        is_ack(reply) <==> (reply matches Frame::Text(t) && t@ == ack_text()),
        is_ack(reply) ==> {
            &&& reply_result(Some(reply)) == Ok::<(), ProtocolError>(())
            &&& s.registering(id).after_reply(Some(reply)).phase == Phase::Registered
            &&& s.registering(id).after_reply(Some(reply)).client_id == Some(id)
        },
        reply is Close ==> {
            &&& reply_result(Some(reply)) == Err::<(), ProtocolError>(ProtocolError::NoResponse)
            &&& s.registering(id).after_reply(Some(reply)) == s.registering(id)
        },
        !is_ack(reply) && !(reply is Close) ==> {
            &&& reply_result(Some(reply)) == Err::<(), ProtocolError>(ProtocolError::UnexpectedResponse(reply))
            &&& s.registering(id).after_reply(Some(reply)) == s.registering(id)
            &&& s.registering(id).phase == Phase::AwaitingRegistrationAck
        },
{
}

/// No frame at all, or the connection closing, during registration yields
/// `NoResponse` and no transition.
pub proof fn silence_is_no_response(s: SessionModel)
    requires
        s.wf(),
        s.phase == Phase::AwaitingRegistrationAck,
    ensures
        reply_result(None) == Err::<(), ProtocolError>(ProtocolError::NoResponse),
        s.after_reply(None) == s,
        reply_result(Some(Frame::Close)) == Err::<(), ProtocolError>(ProtocolError::NoResponse),
        s.after_reply(Some(Frame::Close)) == s,
{
}

/// An active session answers a ping with exactly one pong carrying the same
/// bytes, hands nothing to the peer handler, and stays active.
pub proof fn ping_answered_with_pong(s: SessionModel, data: Vec<u8>)
    requires
        s.wf(),
        s.phase == Phase::Active,
    ensures
        step_result(s, Event::Inbound(Frame::Ping(data))) == Ok::<Action, SignalingError>(
            Action::Send(Frame::Pong(data)),
        ),
        step_state(s, Event::Inbound(Frame::Ping(data))) == s,
{
}

/// An active session hands inbound text to the peer handler exactly as it
/// came, sends nothing in reply, and stays active.
pub proof fn text_delivered_verbatim(s: SessionModel, payload: String)
    requires
        s.wf(),
        s.phase == Phase::Active,
    ensures
        step_result(s, Event::Inbound(Frame::Text(payload))) == Ok::<Action, SignalingError>(
            Action::Deliver(payload),
        ),
        step_state(s, Event::Inbound(Frame::Text(payload))) == s,
{
}

/// An inbound close ends an active session normally; the loop then reads no
/// further frame, and any later event leaves the session as it is.
pub proof fn close_ends_session(s: SessionModel, later: Event)
    requires
        s.wf(),
        s.phase == Phase::Active,
    ensures
        step_result(s, Event::Inbound(Frame::Close)) == Ok::<Action, SignalingError>(Action::Finish),
        step_state(s, Event::Inbound(Frame::Close)).phase == Phase::Closed,
        !reads_inbound(step_state(s, Event::Inbound(Frame::Close))),
        step_state(step_state(s, Event::Inbound(Frame::Close)), later) == step_state(s, Event::Inbound(Frame::Close)),
{
}

} // verus!
