use vstd::prelude::*;

verus! {

/// Everything that can go wrong while bringing a session up or keeping it
/// alive.  Construction-time failures (`RoomOverflow`, `SessionStartError`)
/// abort the pending session before it ever runs; `PeerLost` ends a running
/// one.
#[derive(Clone, Copy, PartialEq, Eq, Structural, Debug)]
pub enum SessionError {
    /// The signaling layer reported more peers than the configured room
    /// size; the session never starts.
    RoomOverflow,
    /// Handing the transport over to the session failed while moving from
    /// `Starting` to `Running`; fatal to the current attempt.
    SessionStartError,
    /// A bound peer's connection was lost mid-session; the session is
    /// terminated and must be rebuilt from scratch.
    PeerLost(usize),
}

} // verus!
