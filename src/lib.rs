//! A signaling-channel client core: registration handshake, session request
//! and the per-event decisions of the steady-state message loop.

pub mod wire;
pub mod identity;
pub mod session;
pub mod dispatch;
pub mod laws;
