//! The decisions of the steady-state message loop: one event in, one action
//! out. The loop itself (waiting on the transport and on the peer handler,
//! performing the action) runs outside this crate.

use vstd::prelude::*;

use crate::session::{Phase, SessionModel, SessionState, SignalingError};
use crate::wire::Frame;

verus! {

/// What the loop observed on one iteration.
#[derive(PartialEq, Eq, Clone, Debug)]
pub enum Event {
    /// A frame read from the transport.
    Inbound(Frame),
    /// Text the peer handler asked to have sent.
    Outgoing(String),
    /// The transport stream and the peer handler's source both ran dry.
    Exhausted,
    /// A read from or a send on the transport failed.
    TransportFailed(String),
}

/// What the loop is to do in reply to one event.
#[derive(PartialEq, Eq, Clone, Debug)]
pub enum Action {
    /// Send this frame before reading the next one.
    Send(Frame),
    /// Hand this payload, unchanged, to the peer handler.
    Deliver(String),
    /// Nothing to do.
    Ignore,
    /// Leave the loop normally.
    Finish,
}

/// The reply of an active session to `ev`.
pub open spec fn reaction(ev: Event) -> Result<Action, SignalingError> {
    match ev {
        Event::Inbound(f) => match f {
            Frame::Close => Ok(Action::Finish),
            Frame::Ping(data) => Ok(Action::Send(Frame::Pong(data))),
            Frame::Pong(_) => Ok(Action::Ignore),
            Frame::Binary(_) => Ok(Action::Ignore),
            Frame::Text(payload) => Ok(Action::Deliver(payload)),
        },
        Event::Outgoing(text) => Ok(Action::Send(Frame::Text(text))),
        Event::Exhausted => Ok(Action::Finish),
        Event::TransportFailed(e) => Err(SignalingError::Transport(e)),
    }
}

/// Whether `ev` ends an active session.
pub open spec fn ends_session(ev: Event) -> bool {
    match ev {
        Event::Inbound(f) => f is Close,
        Event::Outgoing(_) => false,
        Event::Exhausted => true,
        Event::TransportFailed(_) => true,
    }
}

/// What a session in state `s` returns for `ev`: outside the active phase
/// the loop is over and every event finishes it.
pub open spec fn step_result(s: SessionModel, ev: Event) -> Result<Action, SignalingError> {
    if s.phase == Phase::Active {
        reaction(ev)
    } else {
        Ok(Action::Finish)
    }
}

/// The state of a session in state `s` once it has taken in `ev`.
pub open spec fn step_state(s: SessionModel, ev: Event) -> SessionModel {
    if s.phase == Phase::Active && ends_session(ev) {
        s.with_phase(Phase::Closed)
    } else {
        s
    }
}

/// Whether the loop reads another frame from the transport in state `s`.
pub open spec fn reads_inbound(s: SessionModel) -> bool {
    s.phase == Phase::Active
}

impl SessionState {
    /// Whether the loop is to wait for another event.
    pub fn awaits_inbound(&self) -> (r: bool)
        ensures
            r == reads_inbound(self@),
    {
        self.phase() == Phase::Active
    }

    /// Decides what to do about one event of the message loop.
    pub fn step(&mut self, ev: Event) -> (r: Result<Action, SignalingError>)
        requires
            old(self)@.wf(),
        ensures
            r == step_result(old(self)@, ev),
            final(self)@ == step_state(old(self)@, ev),
            final(self)@.wf(),
    {
        if self.phase() != Phase::Active {
            return Ok(Action::Finish);
        }
        match ev {
            Event::Inbound(f) => match f {
                Frame::Close => {
                    self.close();
                    Ok(Action::Finish)
                },
                Frame::Ping(data) => Ok(Action::Send(Frame::Pong(data))),
                Frame::Pong(_) => Ok(Action::Ignore),
                Frame::Binary(_) => Ok(Action::Ignore),
                Frame::Text(payload) => Ok(Action::Deliver(payload)),
            },
            Event::Outgoing(text) => Ok(Action::Send(Frame::Text(text))),
            Event::Exhausted => {
                self.close();
                Ok(Action::Finish)
            },
            Event::TransportFailed(e) => {
                self.close();
                Err(SignalingError::Transport(e))
            },
        }
    }
}

} // verus!
