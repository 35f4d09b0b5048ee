use vstd::prelude::*;

use crate::errors::SessionError;
use crate::registry::PeerIdentity;
use crate::registry::PeerRegistry;
use crate::registry::distinct_peers;

verus! {

/// The session lifecycle: `WaitingForPeers -> Starting -> Running ->
/// Terminated`, with no way back and no resume after termination.
#[derive(Clone, Copy, PartialEq, Eq, Structural, Debug)]
pub enum SessionPhase {
    WaitingForPeers,
    Starting,
    Running,
    Terminated,
}

/// The immutable session configuration, created exactly once, at the
/// moment the registry first observes `num_players` distinct identities.
/// `peer_bindings[h]` is the identity bound to handle `h`.
pub struct SessionConfig {
    pub num_players: usize,
    pub input_delay: usize,
    pub peer_bindings: Vec<PeerIdentity>,
}

impl SessionConfig {
    /// A configuration is coherent when it binds exactly one identity to
    /// each of its `num_players` handles.
    pub open spec fn wf(self) -> bool {
        self.peer_bindings@.len() == self.num_players
    }

    /// The handle bound to `peer`: the first position of `peer` among
    /// the bindings, or nothing when `peer` is not bound at all.
    pub fn handle_of(&self, peer: PeerIdentity) -> (r: Option<usize>)
        ensures
            r matches Some(h) ==> h < self.peer_bindings@.len() && self.peer_bindings@[h as int]
                == peer && (forall|j: int| 0 <= j < h ==> self.peer_bindings@[j] != peer),
            r is None ==> (forall|j: int|
                0 <= j < self.peer_bindings@.len() ==> self.peer_bindings@[j] != peer),
    {
        let mut i: usize = 0;
        while i < self.peer_bindings.len()
            invariant
                i <= self.peer_bindings@.len(),
                forall|j: int| 0 <= j < i ==> self.peer_bindings@[j] != peer,
            decreases self.peer_bindings@.len() - i,
        {
            if self.peer_bindings[i] == peer {
                return Some(i);
            }
            i = i + 1;
        }
        None
    }
}

/// The session builder and lifecycle.  It gates the construction of the
/// `SessionConfig` on the exact peer count, because the input delay and
/// the per-handle bindings must be fixed and identical on every
/// participant before any input synchronization begins.
pub struct Session {
    pub phase: SessionPhase,
    pub room_size: usize,
    pub input_delay: usize,
    pub config: Option<SessionConfig>,
}

impl Session {
    /// The configuration exists exactly from the moment the room fills,
    /// and from then on it is coherent and never changes.
    pub open spec fn wf(self) -> bool {
        &&& self.room_size >= 1
        &&& match self.config {
            Some(c) => !(self.phase is WaitingForPeers) && c.wf() && c.num_players
                == self.room_size && c.input_delay == self.input_delay,
            None => self.phase is WaitingForPeers || self.phase is Terminated,
        }
    }

    pub fn new(room_size: usize, input_delay: usize) -> (r: Session)
        requires
            room_size >= 1,
        ensures
            r.wf(),
            r.phase is WaitingForPeers,
            r.room_size == room_size,
            r.input_delay == input_delay,
            r.config is None,
    {
        Session { phase: SessionPhase::WaitingForPeers, room_size, input_delay, config: None }
    }

    /// One polling round while waiting for the room to fill.
    ///
    /// Outside `WaitingForPeers` this is a no-op.  While waiting, the
    /// session moves to `Starting` and builds its configuration exactly
    /// when `room_size` distinct identities are known — the returned
    /// `true` tells the caller to hand the transport over now.  Fewer
    /// peers leave everything unchanged; more than `room_size` peers are
    /// a protocol violation that aborts the attempt with `RoomOverflow`.
    pub fn observe_peers(&mut self, peers: &Vec<PeerIdentity>) -> (r: Result<bool, SessionError>)
        requires
            old(self).wf(),
            distinct_peers(peers@),
        ensures
            final(self).wf(),
            final(self).room_size == old(self).room_size,
            final(self).input_delay == old(self).input_delay,
            !(old(self).phase is WaitingForPeers) ==> (*final(self) == *old(self)
                && r == Result::<bool, SessionError>::Ok(false)),
            old(self).phase is WaitingForPeers && peers@.len() < old(self).room_size
                ==> (*final(self) == *old(self)
                && r == Result::<bool, SessionError>::Ok(false)),
            old(self).phase is WaitingForPeers && peers@.len() > old(self).room_size
                ==> (final(self).phase is Terminated && final(self).config is None
                && r == Result::<bool, SessionError>::Err(SessionError::RoomOverflow)),
            old(self).phase is WaitingForPeers && peers@.len() == old(self).room_size
                ==> (final(self).phase is Starting
                && r == Result::<bool, SessionError>::Ok(true)
                && (final(self).config matches Some(c)
                    && c.num_players == old(self).room_size
                    && c.input_delay == old(self).input_delay
                    && c.peer_bindings@ == peers@)),
    {
        match self.phase {
            SessionPhase::WaitingForPeers => {},
            _ => {
                return Ok(false);
            },
        }
        let registry = PeerRegistry::new(self.room_size);
        match registry.assign_handles(peers) {
            Err(e) => {
                self.phase = SessionPhase::Terminated;
                Err(e)
            },
            Ok(None) => Ok(false),
            Ok(Some(bindings)) => {
                self.config = Some(
                    SessionConfig {
                        num_players: self.room_size,
                        input_delay: self.input_delay,
                        peer_bindings: bindings,
                    },
                );
                self.phase = SessionPhase::Starting;
                Ok(true)
            },
        }
    }

    /// The end of the `Starting` phase: the caller reports whether the
    /// transport channel could be acquired from the signaling client.
    /// Success puts the session in `Running`; failure (the channel was
    /// already taken, or transport setup failed) is fatal to the attempt
    /// and surfaces `SessionStartError`.
    pub fn complete_start(&mut self, transport_acquired: bool) -> (r: Result<(), SessionError>)
        requires
            old(self).wf(),
            old(self).phase is Starting,
        ensures
            final(self).wf(),
            final(self).room_size == old(self).room_size,
            final(self).input_delay == old(self).input_delay,
            final(self).config == old(self).config,
            transport_acquired ==> (final(self).phase is Running && r == Result::<
                (),
                SessionError,
            >::Ok(())),
            !transport_acquired ==> (final(self).phase is Terminated && r == Result::<
                (),
                SessionError,
            >::Err(SessionError::SessionStartError)),
    {
        if transport_acquired {
            self.phase = SessionPhase::Running;
            Ok(())
        } else {
            self.phase = SessionPhase::Terminated;
            Err(SessionError::SessionStartError)
        }
    }

    /// A bound peer's connection was lost.  While `Running` this
    /// terminates the session and surfaces `PeerLost(handle)`; in any
    /// other phase it changes nothing.  There is no automatic reconnect:
    /// a new session must be built from scratch.
    pub fn peer_lost(&mut self, handle: usize) -> (r: Result<(), SessionError>)
        requires
            old(self).wf(),
        ensures
            final(self).wf(),
            final(self).room_size == old(self).room_size,
            final(self).input_delay == old(self).input_delay,
            final(self).config == old(self).config,
            old(self).phase is Running ==> (final(self).phase is Terminated && r == Result::<
                (),
                SessionError,
            >::Err(SessionError::PeerLost(handle))),
            !(old(self).phase is Running) ==> (*final(self) == *old(self) && r == Result::<
                (),
                SessionError,
            >::Ok(())),
    {
        match self.phase {
            SessionPhase::Running => {
                self.phase = SessionPhase::Terminated;
                Err(SessionError::PeerLost(handle))
            },
            _ => Ok(()),
        }
    }
}

} // verus!
