use rollback_core::input::KEY_DOWN;
use rollback_core::input::KEY_FIRE;
use rollback_core::input::KEY_LEFT;
use rollback_core::input::KEY_RIGHT;
use rollback_core::input::KEY_UP;
use rollback_core::input::InputFrame;
use rollback_core::input::decode_axes;
use rollback_core::input::encode_axes;
use rollback_core::input::encode_keys;
use rollback_core::input::sample_pointer;
use rollback_core::input::screen_to_sim;

#[test]
fn masks_are_distinct_powers_of_two() {
    assert_eq!(KEY_UP, 1);
    assert_eq!(KEY_DOWN, 2);
    assert_eq!(KEY_LEFT, 4);
    assert_eq!(KEY_RIGHT, 8);
    assert_eq!(KEY_FIRE, 16);
}

#[test]
fn encode_keys_sums_held_masks() {
    assert_eq!(encode_keys(false, false, false, false, false), 0);
    assert_eq!(encode_keys(true, false, true, false, false), 0b0000_0101);
    assert_eq!(encode_keys(true, true, true, true, true), 0b0001_1111);
    assert_eq!(encode_keys(false, false, false, false, true), 16);
}

#[test]
fn decode_single_keys() {
    assert_eq!(decode_axes(KEY_UP), (0, 1));
    assert_eq!(decode_axes(KEY_DOWN), (0, -1));
    assert_eq!(decode_axes(KEY_LEFT), (-1, 0));
    assert_eq!(decode_axes(KEY_RIGHT), (1, 0));
    assert_eq!(decode_axes(KEY_FIRE), (0, 0));
}

#[test]
fn opposite_keys_cancel() {
    // Both UP and DOWN held: no vertical movement contribution.
    let b = encode_keys(true, true, false, false, false);
    assert_eq!(decode_axes(b).1, 0);
    // Same with everything else held too.
    let all = encode_keys(true, true, true, true, true);
    assert_eq!(decode_axes(all), (0, 0));
}

#[test]
fn reencoding_decoded_axes_is_stable() {
    for b in 0u8..=0b0001_1111 {
        let (ax, ay) = decode_axes(b);
        let again = encode_axes(ax, ay);
        assert_eq!(decode_axes(again), (ax, ay));
        // A second round changes nothing more.
        let (ax2, ay2) = decode_axes(again);
        assert_eq!(encode_axes(ax2, ay2), again);
    }
}

#[test]
fn encoded_axes_use_the_key_masks() {
    assert_eq!(encode_axes(0, 0), 0);
    assert_eq!(encode_axes(-1, 1), KEY_LEFT | KEY_UP);
    assert_eq!(encode_axes(1, -1), KEY_RIGHT | KEY_DOWN);
}

#[test]
fn screen_center_maps_to_origin() {
    assert_eq!(screen_to_sim(800, 450, 1600, 900), (0, 0));
}

#[test]
fn screen_edges_map_to_scaled_offsets() {
    // Right edge of a 1600x900 window: (2*1600 - 1600) * 5000 / 900 = 8888.
    assert_eq!(screen_to_sim(1600, 450, 1600, 900).0, 8888);
    // Left edge: the same magnitude, negative, truncated toward zero.
    assert_eq!(screen_to_sim(0, 450, 1600, 900).0, -8888);
    // Top and bottom edges map to half the vertical scale: 5 world units.
    assert_eq!(screen_to_sim(800, 900, 1600, 900).1, 5000);
    assert_eq!(screen_to_sim(800, 0, 1600, 900).1, -5000);
}

#[test]
fn sample_without_events_is_the_zero_sentinel() {
    let events: Vec<(i64, i64)> = Vec::new();
    assert_eq!(sample_pointer(&events, 1600, 900), InputFrame::Continuous(0, 0));
}

#[test]
fn sample_takes_the_latest_event() {
    let events: Vec<(i64, i64)> = vec![(10, 10), (800, 450), (1600, 450)];
    assert_eq!(sample_pointer(&events, 1600, 900), InputFrame::Continuous(8888, 0));
}

#[test]
fn sample_of_raw_zero_position_is_converted_like_any_event() {
    // The zero sentinel is reserved for "no movement event this tick":
    // a real event at the screen corner (0, 0) is converted like any
    // other position, to the corner's offset.
    let events: Vec<(i64, i64)> = vec![(1600, 450), (0, 0)];
    assert_eq!(sample_pointer(&events, 1600, 900), InputFrame::Continuous(-8888, -5000));
}
