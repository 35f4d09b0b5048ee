use vstd::prelude::*;

use crate::input::InputFrame;
use crate::session::Session;
use crate::sim::Position;
use crate::sim::step;
use crate::sim::step_fits;
use crate::sim::step_positions;

verus! {

/// What one invocation of the frame driver did.
#[derive(Clone, Copy, PartialEq, Eq, Structural, Debug)]
pub enum TickOutcome {
    /// The session is not running; the invocation was a no-op.
    Inactive,
    /// Some handle's input for the tick being simulated is not available
    /// yet; no partial or guessed input is ever fed to the step, so the
    /// tick did not advance.
    Stalled,
    /// All inputs were available; the deterministic step ran and the
    /// tick advanced by one.
    Stepped,
}

/// The per-tick entry point of a running session.
///
/// The driver keeps one input slot per handle and tick.  Local input is
/// submitted for the future tick `current_tick + input_delay` — the delay
/// is applied uniformly for all peers to absorb network jitter — while
/// the tick actually simulated now only advances once every handle's
/// input for it has arrived.
pub struct FrameDriver {
    pub num_players: usize,
    pub input_delay: usize,
    pub local_handle: usize,
    pub current_tick: usize,
    pub buffers: Vec<Vec<Option<InputFrame>>>,
}

impl FrameDriver {
    /// One input buffer per handle, and a local handle that names one of
    /// the session's players.
    pub open spec fn wf(self) -> bool {
        &&& self.num_players >= 1
        &&& self.local_handle < self.num_players
        &&& self.buffers@.len() == self.num_players
    }

    /// The input slot of handle `h` at tick `t`: `None` until something
    /// was stored there.
    pub open spec fn input_at(self, h: int, t: int) -> Option<InputFrame> {
        if 0 <= h < self.buffers@.len() && 0 <= t < self.buffers@[h]@.len() {
            self.buffers@[h]@[t]
        } else {
            None
        }
    }

    /// Whether every handle's input for tick `t` is available.
    pub open spec fn all_inputs_ready(self, t: int) -> bool {
        forall|h: int| 0 <= h < self.num_players ==> (#[trigger] self.input_at(h, t)) is Some
    }

    /// The full ordered input tuple for tick `t`, indexed by handle.
    pub open spec fn resolved_inputs(self, t: int) -> Seq<InputFrame>
        recommends
            self.all_inputs_ready(t),
    {
        Seq::new(self.num_players as nat, |h: int| self.input_at(h, t).unwrap())
    }

    pub fn new(num_players: usize, input_delay: usize, local_handle: usize) -> (r: FrameDriver)
        requires
            num_players >= 1,
            local_handle < num_players,
        ensures
            r.wf(),
            r.num_players == num_players,
            r.input_delay == input_delay,
            r.local_handle == local_handle,
            r.current_tick == 0,
            forall|h: int, t: int| r.input_at(h, t) is None,
    {
        let mut buffers: Vec<Vec<Option<InputFrame>>> = Vec::new();
        let mut h: usize = 0;
        while h < num_players
            invariant
                h <= num_players,
                buffers@.len() == h,
                forall|g: int| 0 <= g < h ==> #[trigger] buffers@[g]@.len() == 0,
            decreases num_players - h,
        {
            buffers.push(Vec::new());
            h = h + 1;
        }
        FrameDriver { num_players, input_delay, local_handle, current_tick: 0, buffers }
    }

    /// Stores `frame` in the slot of `handle` at `tick`, growing the
    /// handle's buffer with empty slots as needed.  When `overwrite` is
    /// false an occupied slot keeps what it had: a slot is written by a
    /// single peer and never rewritten by network delivery.
    fn put_input(&mut self, handle: usize, tick: usize, frame: InputFrame, overwrite: bool)
        requires
            old(self).wf(),
            handle < old(self).num_players,
            tick < usize::MAX,
        ensures
            final(self).wf(),
            final(self).num_players == old(self).num_players,
            final(self).input_delay == old(self).input_delay,
            final(self).local_handle == old(self).local_handle,
            final(self).current_tick == old(self).current_tick,
            final(self).input_at(handle as int, tick as int) == (if overwrite || old(self).input_at(
                handle as int,
                tick as int,
            ) is None {
                Some(frame)
            } else {
                old(self).input_at(handle as int, tick as int)
            }),
            forall|h: int, t: int|
                !(h == handle && t == tick) ==> final(self).input_at(h, t) == old(self).input_at(
                    h,
                    t,
                ),
    {
        let ghost old_row: Seq<Option<InputFrame>> = self.buffers@[handle as int]@;
        proof {
            assert(old_row == old(self).buffers@[handle as int]@);
        }
        while self.buffers[handle].len() <= tick
            invariant
                self.wf(),
                handle < self.num_players,
                tick < usize::MAX,
                self.num_players == old(self).num_players,
                self.input_delay == old(self).input_delay,
                self.local_handle == old(self).local_handle,
                self.current_tick == old(self).current_tick,
                old_row == old(self).buffers@[handle as int]@,
                forall|g: int|
                    0 <= g < self.buffers@.len() && g != handle ==> self.buffers@[g] == old(
                        self,
                    ).buffers@[g],
                old_row.len() <= self.buffers@[handle as int]@.len(),
                self.buffers@[handle as int]@.subrange(0, old_row.len() as int) == old_row,
                forall|t2: int|
                    old_row.len() <= t2 < self.buffers@[handle as int]@.len()
                        ==> self.buffers@[handle as int]@[t2] is None,
            decreases tick + 1 - self.buffers@[handle as int]@.len(),
        {
            let ghost before: Seq<Option<InputFrame>> = self.buffers@[handle as int]@;
            self.buffers[handle].push(None);
            proof {
                assert(self.buffers@[handle as int]@.subrange(0, old_row.len() as int)
                    =~= before.subrange(0, old_row.len() as int));
            }
        }
        let ghost grown: Seq<Option<InputFrame>> = self.buffers@[handle as int]@;
        if overwrite || self.buffers[handle][tick].is_none() {
            self.buffers[handle][tick] = Some(frame);
            proof {
                assert(self.buffers@[handle as int]@ == grown.update(tick as int, Some(frame)));
            }
        }
        proof {
            assert forall|t: int|
                0 <= t < old_row.len() implies grown[t] == old_row[t] by {
                assert(grown.subrange(0, old_row.len() as int)[t] == old_row[t]);
            }
            assert forall|h: int, t: int|
                !(h == handle && t == tick) implies self.input_at(h, t) == old(self).input_at(
                h,
                t,
            ) by {
                if h == handle && 0 <= t < old_row.len() {
                    assert(grown[t] == old_row[t]);
                }
            }
        }
    }

    /// Network delivery of a peer's input for a tick.  The first value
    /// delivered for a slot is authoritative; a later delivery for the
    /// same slot changes nothing.
    pub fn deliver_input(&mut self, handle: usize, tick: usize, frame: InputFrame)
        requires
            old(self).wf(),
            handle < old(self).num_players,
            tick < usize::MAX,
        ensures
            final(self).wf(),
            final(self).num_players == old(self).num_players,
            final(self).input_delay == old(self).input_delay,
            final(self).local_handle == old(self).local_handle,
            final(self).current_tick == old(self).current_tick,
            final(self).input_at(handle as int, tick as int) == (if old(self).input_at(
                handle as int,
                tick as int,
            ) is None {
                Some(frame)
            } else {
                old(self).input_at(handle as int, tick as int)
            }),
            forall|h: int, t: int|
                !(h == handle && t == tick) ==> final(self).input_at(h, t) == old(self).input_at(
                    h,
                    t,
                ),
    {
        self.put_input(handle, tick, frame, false);
    }

    /// One invocation of the frame driver, once per simulation tick.
    ///
    /// While the session is running it submits the freshly sampled local
    /// input for the future tick `current_tick + input_delay`, then asks
    /// for the synchronized input of every handle for the tick simulated
    /// now: if any is missing the tick stalls and nothing changes, and
    /// otherwise the deterministic step runs on the full ordered input
    /// tuple and the tick advances.  Outside `Running` the invocation is
    /// a no-op.
    pub fn tick(
        &mut self,
        session: &Session,
        positions: &mut Vec<Position>,
        local: InputFrame,
        speed: i64,
    ) -> (r: TickOutcome)
        requires
            old(self).wf(),
            old(positions)@.len() == old(self).num_players,
            speed >= 0,
            step_fits(old(positions)@, speed as int),
            old(self).current_tick + old(self).input_delay < usize::MAX,
        ensures
            final(self).wf(),
            final(self).num_players == old(self).num_players,
            final(self).input_delay == old(self).input_delay,
            final(self).local_handle == old(self).local_handle,
            final(positions)@.len() == old(positions)@.len(),
            !(session.phase is Running) ==> (r == TickOutcome::Inactive
                && *final(self) == *old(self) && final(positions)@ == old(positions)@),
            session.phase is Running ==> (final(self).input_at(
                old(self).local_handle as int,
                old(self).current_tick + old(self).input_delay,
            ) == Some(local) && (forall|h: int, t: int|
                !(h == old(self).local_handle && t == old(self).current_tick + old(
                    self,
                ).input_delay) ==> final(self).input_at(h, t) == old(self).input_at(h, t))),
            session.phase is Running && final(self).all_inputs_ready(
                old(self).current_tick as int,
            ) ==> (r == TickOutcome::Stepped && final(self).current_tick == old(self).current_tick
                + 1 && final(positions)@ == step_positions(
                old(positions)@,
                final(self).resolved_inputs(old(self).current_tick as int),
                speed as int,
            )),
            session.phase is Running && !final(self).all_inputs_ready(
                old(self).current_tick as int,
            ) ==> (r == TickOutcome::Stalled && final(self).current_tick == old(self).current_tick
                && final(positions)@ == old(positions)@),
    {
        match session.phase {
            crate::session::SessionPhase::Running => {},
            _ => {
                return TickOutcome::Inactive;
            },
        }
        let ct: usize = self.current_tick;
        let lh: usize = self.local_handle;
        self.put_input(lh, ct + self.input_delay, local, true);
        let n: usize = self.num_players;
        let mut ready: bool = true;
        let mut h: usize = 0;
        while h < n
            invariant
                self.wf(),
                n == self.num_players,
                h <= n,
                ct < usize::MAX,
                ready ==> (forall|g: int|
                    0 <= g < h ==> (#[trigger] self.input_at(g, ct as int)) is Some),
                !ready ==> (exists|g: int|
                    0 <= g < n && !((#[trigger] self.input_at(g, ct as int)) is Some)),
            decreases n - h,
        {
            let avail: bool = if ct < self.buffers[h].len() {
                self.buffers[h][ct].is_some()
            } else {
                false
            };
            proof {
                assert(avail == self.input_at(h as int, ct as int) is Some);
            }
            if !avail {
                ready = false;
            }
            h = h + 1;
        }
        if !ready {
            proof {
                assert(!self.all_inputs_ready(ct as int));
            }
            return TickOutcome::Stalled;
        }
        let mut inputs: Vec<InputFrame> = Vec::new();
        let mut g: usize = 0;
        while g < n
            invariant
                self.wf(),
                n == self.num_players,
                g <= n,
                ct < usize::MAX,
                self.all_inputs_ready(ct as int),
                inputs@.len() == g,
                forall|k: int| 0 <= k < g ==> inputs@[k] == self.input_at(k, ct as int).unwrap(),
            decreases n - g,
        {
            proof {
                assert(self.input_at(g as int, ct as int) is Some);
            }
            let f: InputFrame = self.buffers[g][ct].unwrap();
            inputs.push(f);
            g = g + 1;
        }
        proof {
            assert(inputs@ =~= self.resolved_inputs(ct as int));
        }
        step(positions, &inputs, speed);
        let ghost mid: FrameDriver = *self;
        self.current_tick = ct + 1;
        proof {
            assert(mid.all_inputs_ready(ct as int));
            assert forall|h2: int|
                0 <= h2 < self.num_players implies (#[trigger] self.input_at(
                h2,
                ct as int,
            )) is Some by {
                assert(mid.input_at(h2, ct as int) is Some);
                assert(self.input_at(h2, ct as int) == mid.input_at(h2, ct as int));
            }
            assert(self.all_inputs_ready(ct as int));
            assert(self.resolved_inputs(ct as int) =~= mid.resolved_inputs(ct as int));
            assert(inputs@ == self.resolved_inputs(ct as int));
        }
        TickOutcome::Stepped
    }
}

} // verus!
