use vstd::prelude::*;

use crate::errors::SessionError;

verus! {

/// An opaque, comparable, unique address token issued by the signaling
/// layer (a connection identifier).  The core never looks inside it; it
/// only compares and stores it.
#[derive(Clone, Copy, PartialEq, Eq, Structural, Debug)]
pub struct PeerIdentity {
    pub token: u128,
}

/// No identity occurs twice in the discovery sequence.
pub open spec fn distinct_peers(s: Seq<PeerIdentity>) -> bool {
    forall|i: int, j: int| 0 <= i < j < s.len() ==> s[i] != s[j]
}

/// Deterministic handle assignment: peers are enumerated in discovery
/// order and handle `i` goes to the `i`-th discovered identity.  Handles
/// are emitted only once, atomically, at the moment the room fills to
/// `room_size`; before that no handle is final.
pub struct PeerRegistry {
    pub room_size: usize,
}

impl PeerRegistry {
    pub fn new(room_size: usize) -> (r: PeerRegistry)
        requires
            room_size >= 1,
        ensures
            r.room_size == room_size,
    {
        PeerRegistry { room_size }
    }

    /// Atomic handle assignment from the currently discovered peers.
    ///
    /// Returns the final bindings (index = handle) exactly when the room
    /// is full, nothing while it is still filling, and `RoomOverflow`
    /// when the signaling layer reports more peers than the room holds.
    pub fn assign_handles(&self, peers: &Vec<PeerIdentity>) -> (r: Result<
        Option<Vec<PeerIdentity>>,
        SessionError,
    >)
        ensures
            peers@.len() > self.room_size ==> (r matches Err(e) && e == SessionError::RoomOverflow),
            peers@.len() < self.room_size ==> (r matches Ok(o) && o is None),
            peers@.len() == self.room_size ==> (r matches Ok(o) && o matches Some(b) && b@
                == peers@),
    {
        if peers.len() > self.room_size {
            return Err(SessionError::RoomOverflow);
        }
        if peers.len() < self.room_size {
            return Ok(None);
        }
        let mut bindings: Vec<PeerIdentity> = Vec::new();
        let mut i: usize = 0;
        while i < peers.len()
            invariant
                i <= peers@.len(),
                bindings@ == peers@.subrange(0, i as int),
            decreases peers@.len() - i,
        {
            bindings.push(peers[i]);
            i = i + 1;
        }
        proof {
            assert(bindings@ =~= peers@);
        }
        Ok(Some(bindings))
    }
}

/// Handles follow discovery order: binding `i` is the `i`-th discovered
/// identity, so handles 0, 1, 2, ... are assigned in strictly increasing
/// discovery order, and distinct identities get distinct handles.
pub proof fn lemma_handles_follow_discovery(peers: Seq<PeerIdentity>, bindings: Seq<PeerIdentity>)
    requires
        bindings == peers,
        distinct_peers(peers),
    ensures
        forall|h: int| 0 <= h < bindings.len() ==> bindings[h] == peers[h],
        forall|g: int, h: int|
            0 <= g < h < bindings.len() ==> bindings[g] != bindings[h],
{
}

} // verus!
