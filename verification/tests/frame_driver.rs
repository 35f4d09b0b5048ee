use rollback_core::driver::FrameDriver;
use rollback_core::driver::TickOutcome;
use rollback_core::input::InputFrame;
use rollback_core::input::KEY_LEFT;
use rollback_core::input::KEY_UP;
use rollback_core::registry::PeerIdentity;
use rollback_core::session::Session;
use rollback_core::session::SessionPhase;
use rollback_core::sim::Position;
use rollback_core::sim::initial_positions;
use rollback_core::sim::step;

fn running_session() -> Session {
    let mut session = Session::new(2, 2);
    let peers = vec![PeerIdentity { token: 1 }, PeerIdentity { token: 2 }];
    session.observe_peers(&peers).unwrap();
    session.complete_start(true).unwrap();
    session
}

const NO_KEYS: InputFrame = InputFrame::Discrete(0);

#[test]
fn players_start_two_units_from_the_origin() {
    let positions = initial_positions();
    assert_eq!(positions, vec![Position { x: -2000, y: 0 }, Position { x: 2000, y: 0 }]);
}

#[test]
fn discrete_up_left_moves_by_speed_on_both_axes() {
    // Input byte 0b00000101 is UP | LEFT; with speed 0.13 world units
    // (130 milli-units) the movement delta is (-0.13, +0.13).
    let mut positions = vec![Position { x: 0, y: 0 }, Position { x: 0, y: 0 }];
    let inputs = vec![InputFrame::Discrete(0b0000_0101), NO_KEYS];
    step(&mut positions, &inputs, 130);
    assert_eq!(positions[0], Position { x: -130, y: 130 });
    assert_eq!(positions[1], Position { x: 0, y: 0 });
    assert_eq!(0b0000_0101, KEY_UP | KEY_LEFT);
}

#[test]
fn step_is_deterministic() {
    let start = vec![Position { x: 17, y: -4 }, Position { x: 2000, y: 0 }];
    let inputs = vec![InputFrame::Discrete(KEY_UP), InputFrame::Continuous(250, -75)];
    let mut first = start.clone();
    step(&mut first, &inputs, 130);
    let mut second = start.clone();
    step(&mut second, &inputs, 130);
    assert_eq!(first, second);
}

#[test]
fn zero_continuous_offset_does_not_move() {
    // "No input this tick" means "do not move", not "move to origin".
    let mut positions = vec![Position { x: -2000, y: 0 }, Position { x: 2000, y: 0 }];
    let inputs = vec![InputFrame::Continuous(0, 0), InputFrame::Continuous(40, 50)];
    step(&mut positions, &inputs, 0);
    assert_eq!(positions[0], Position { x: -2000, y: 0 });
    assert_eq!(positions[1], Position { x: 40, y: 50 });
}

#[test]
fn input_delay_defers_local_input_by_two_ticks() {
    // input_delay = 2: the local input sampled at tick 0 is not consumed
    // by the deterministic step until simulated tick 2, and ticks 0 and 1
    // stall while the inputs for them have not arrived.
    let session = running_session();
    let mut driver = FrameDriver::new(2, 2, 0);
    let mut positions = vec![Position { x: 0, y: 0 }, Position { x: 0, y: 0 }];
    let held_up = InputFrame::Discrete(KEY_UP);

    // Tick 0 has no inputs yet: stall, nothing moves, time stands still.
    assert_eq!(driver.tick(&session, &mut positions, held_up, 130), TickOutcome::Stalled);
    assert_eq!(driver.current_tick, 0);
    assert_eq!(positions[0], Position { x: 0, y: 0 });

    // The inputs for tick 0 arrive (idle frames): the tick advances and
    // consumes them — not the held key sampled at tick 0.
    driver.deliver_input(0, 0, NO_KEYS);
    driver.deliver_input(1, 0, NO_KEYS);
    assert_eq!(driver.tick(&session, &mut positions, held_up, 130), TickOutcome::Stepped);
    assert_eq!(driver.current_tick, 1);
    assert_eq!(positions[0], Position { x: 0, y: 0 });

    // Same for tick 1.
    driver.deliver_input(0, 1, NO_KEYS);
    driver.deliver_input(1, 1, NO_KEYS);
    assert_eq!(driver.tick(&session, &mut positions, held_up, 130), TickOutcome::Stepped);
    assert_eq!(driver.current_tick, 2);
    assert_eq!(positions[0], Position { x: 0, y: 0 });

    // Tick 2 still waits for the remote peer...
    assert_eq!(driver.tick(&session, &mut positions, held_up, 130), TickOutcome::Stalled);
    assert_eq!(driver.current_tick, 2);

    // ...and once that arrives, the local input submitted at tick 0 for
    // tick 0 + 2 finally reaches the step: handle 0 moves up.
    driver.deliver_input(1, 2, NO_KEYS);
    assert_eq!(driver.tick(&session, &mut positions, held_up, 130), TickOutcome::Stepped);
    assert_eq!(driver.current_tick, 3);
    assert_eq!(positions[0], Position { x: 0, y: 130 });
    assert_eq!(positions[1], Position { x: 0, y: 0 });
}

#[test]
fn first_delivery_for_a_slot_is_authoritative() {
    let session = running_session();
    let mut driver = FrameDriver::new(2, 0, 0);
    let mut positions = vec![Position { x: 0, y: 0 }, Position { x: 0, y: 0 }];

    driver.deliver_input(1, 0, InputFrame::Discrete(KEY_LEFT));
    // A second delivery for the same slot changes nothing.
    driver.deliver_input(1, 0, InputFrame::Discrete(KEY_UP));
    assert_eq!(driver.tick(&session, &mut positions, NO_KEYS, 130), TickOutcome::Stepped);
    assert_eq!(positions[1], Position { x: -130, y: 0 });
}

#[test]
fn driver_is_a_no_op_after_termination() {
    // A PeerLost delivered while Running terminates the session;
    // subsequent frame driver invocations are no-ops.
    let mut session = running_session();
    let mut driver = FrameDriver::new(2, 0, 0);
    let mut positions = vec![Position { x: 0, y: 0 }, Position { x: 0, y: 0 }];

    driver.deliver_input(1, 0, NO_KEYS);
    assert_eq!(driver.tick(&session, &mut positions, NO_KEYS, 130), TickOutcome::Stepped);
    assert_eq!(driver.current_tick, 1);

    session.peer_lost(1).unwrap_err();
    assert_eq!(session.phase, SessionPhase::Terminated);

    // Inputs for tick 1 are all there, but the session is over: no tick
    // is processed any more.
    driver.deliver_input(0, 1, InputFrame::Discrete(KEY_UP));
    driver.deliver_input(1, 1, InputFrame::Discrete(KEY_UP));
    assert_eq!(driver.tick(&session, &mut positions, NO_KEYS, 130), TickOutcome::Inactive);
    assert_eq!(driver.current_tick, 1);
    assert_eq!(positions, vec![Position { x: 0, y: 0 }, Position { x: 0, y: 0 }]);
}
