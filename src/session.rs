//! The registration handshake: session state, its phases and the errors
//! that end a session.

use vstd::prelude::*;

use crate::identity::valid_client_id;
use crate::wire::{Frame, is_ack, is_registration_ack, hello_command, hello_text, session_command, session_text};

verus! {

/// Where a client stands in the protocol.
#[derive(PartialEq, Eq, Structural, Clone, Copy, Debug)]
pub enum Phase {
    Connecting,
    AwaitingRegistrationAck,
    Registered,
    SessionRequested,
    Active,
    Closed,
}

/// A violation of the registration protocol by the server.
#[derive(PartialEq, Eq, Clone, Debug)]
pub enum ProtocolError {
    /// The server closed the connection or sent nothing during registration.
    NoResponse,
    /// The server answered the registration with this frame instead of `HELLO`.
    UnexpectedResponse(Frame),
}

/// Any failure that ends a session.
#[derive(PartialEq, Eq, Clone, Debug)]
pub enum SignalingError {
    /// A connection, read or write failure, with its description.
    Transport(String),
    Protocol(ProtocolError),
}

/// The abstract value of a `SessionState`.
#[derive(PartialEq, Eq, Structural, Clone, Copy, Debug)]
pub struct SessionModel {
    pub phase: Phase,
    pub client_id: Option<u16>,
    pub peer_id: u32,
}

impl SessionModel {
    /// A client has an identity exactly from registration on; a closed
    /// session may have one or not.
    pub open spec fn wf(self) -> bool {
        match self.phase {
            Phase::Connecting => self.client_id is None,
            Phase::Closed => true,
            _ => self.client_id matches Some(id) && valid_client_id(id as int),
        }
    }

    pub open spec fn with_phase(self, phase: Phase) -> SessionModel {
        SessionModel { phase, ..self }
    }

    /// The state once `HELLO <id>` has been sent.
    pub open spec fn registering(self, id: u16) -> SessionModel {
        SessionModel { phase: Phase::AwaitingRegistrationAck, client_id: Some(id), ..self }
    }

    /// The state once the server's answer to the registration (or its
    /// absence) has been taken in: only the exact acknowledgement moves on.
    pub open spec fn after_reply(self, reply: Option<Frame>) -> SessionModel {
        match reply {
            Some(f) => if is_ack(f) {
                self.with_phase(Phase::Registered)
            } else {
                self
            },
            None => self,
        }
    }
}

/// What taking in the registration answer returns: a closed connection
/// counts as no answer at all.
pub open spec fn reply_result(reply: Option<Frame>) -> Result<(), ProtocolError> {
    match reply {
        None => Err(ProtocolError::NoResponse),
        Some(Frame::Close) => Err(ProtocolError::NoResponse),
        Some(f) => if is_ack(f) {
            Ok(())
        } else {
            Err(ProtocolError::UnexpectedResponse(f))
        },
    }
}

/// Registration and session identifiers with the current protocol phase.
pub struct SessionState {
    phase: Phase,
    client_id: Option<u16>,
    peer_id: u32,
}

impl View for SessionState {
    type V = SessionModel;

    closed spec fn view(&self) -> SessionModel {
        SessionModel { phase: self.phase, client_id: self.client_id, peer_id: self.peer_id }
    }
}

impl SessionState {
    /// A client that is about to connect, and will ask for a session with `peer_id`.
    pub fn new(peer_id: u32) -> (s: SessionState)
        ensures
            s@ == (SessionModel { phase: Phase::Connecting, client_id: None, peer_id }),
            s@.wf(),
    {
        SessionState { phase: Phase::Connecting, client_id: None, peer_id }
    }

    pub fn phase(&self) -> (p: Phase)
        ensures
            p == self@.phase,
    {
        self.phase
    }

    pub fn client_id(&self) -> (id: Option<u16>)
        ensures
            id == self@.client_id,
    {
        self.client_id
    }

    pub fn peer_id(&self) -> (id: u32)
        ensures
            id == self@.peer_id,
    {
        self.peer_id
    }

    /// Takes identity `id` and returns the registration command to send.
    pub fn begin_registration(&mut self, id: u16) -> (cmd: String)
        requires
            old(self)@.wf(),
            old(self)@.phase == Phase::Connecting,
            valid_client_id(id as int),
        ensures
            cmd@ == hello_text(id as nat),
            final(self)@ == old(self)@.registering(id),
            final(self)@.wf(),
    {
        self.client_id = Some(id);
        self.phase = Phase::AwaitingRegistrationAck;
        hello_command(id)
    }

    /// Takes in the first frame after registration, `None` when the
    /// connection yielded none. Only the exact text `HELLO` registers the
    /// client; anything else leaves the phase as it was. No frame and a
    /// close frame are `NoResponse`; any other frame is `UnexpectedResponse`.
    pub fn on_registration_reply(&mut self, reply: Option<Frame>) -> (r: Result<(), ProtocolError>)
        requires
            old(self)@.wf(),
            old(self)@.phase == Phase::AwaitingRegistrationAck,
        ensures
            r == reply_result(reply),
            final(self)@ == old(self)@.after_reply(reply),
            final(self)@.wf(),
    {
        match reply {
            None => Err(ProtocolError::NoResponse),
            Some(Frame::Close) => Err(ProtocolError::NoResponse),
            Some(f) => {
                if is_registration_ack(&f) {
                    self.phase = Phase::Registered;
                    Ok(())
                } else {
                    Err(ProtocolError::UnexpectedResponse(f))
                }
            },
        }
    }

    /// Returns the session request command for the configured peer.
    pub fn request_session(&mut self) -> (cmd: String)
        requires
            old(self)@.wf(),
            old(self)@.phase == Phase::Registered,
        ensures
            cmd@ == session_text(old(self)@.peer_id as nat),
            final(self)@ == old(self)@.with_phase(Phase::SessionRequested),
            final(self)@.wf(),
    {
        self.phase = Phase::SessionRequested;
        session_command(self.peer_id)
    }

    /// Enters the steady-state message loop.
    pub fn activate(&mut self)
        requires
            old(self)@.wf(),
            old(self)@.phase == Phase::SessionRequested,
        ensures
            final(self)@ == old(self)@.with_phase(Phase::Active),
            final(self)@.wf(),
    {
        self.phase = Phase::Active;
    }

    /// Ends the session, from whatever phase.
    pub fn close(&mut self)
        requires
            old(self)@.wf(),
        ensures
            final(self)@ == old(self)@.with_phase(Phase::Closed),
            final(self)@.wf(),
    {
        self.phase = Phase::Closed;
    }
}

} // verus!
