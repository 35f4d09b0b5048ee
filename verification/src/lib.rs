//! Session core for a peer-to-peer deterministic-rollback simulation.
//!
//! The crate isolates the engine-independent pattern of such a session:
//! discovering exactly `room_size` peers through a signaling rendezvous,
//! assigning each a stable handle, building an immutable session
//! configuration, and then driving a per-tick simulation step from
//! synchronized, input-delayed per-peer inputs.  Rendering, the entity
//! system and the network transport are the host's concern; they hand this
//! crate plain values (peer identities, input samples) and take plain
//! values back (per-handle positions, the rendezvous URL).
//!
//! Distances live in fixed-point milli-units (1000 per world unit), so
//! the whole simulation is integer arithmetic and bit-reproducible across
//! peers — the precondition for rollback to keep everyone consistent.

pub mod errors;
pub mod input;
pub mod registry;
pub mod session;
pub mod sim;
pub mod driver;
pub mod url;
