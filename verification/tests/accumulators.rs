use activity_meter::accumulators::{Accumulators, InputEvent};

#[test]
fn fresh_accumulators_read_zero() {
    let acc = Accumulators::new();
    assert_eq!(acc.key_count(), 0);
    assert_eq!(acc.right_click(), 0);
    assert_eq!(acc.left_click(), 0);
    assert_eq!(acc.cursor(), (0, 0));
    assert_eq!(acc.travel(), 0);
}

#[test]
fn default_accumulators_read_zero() {
    let acc = Accumulators::default();
    assert_eq!(acc.key_count(), 0);
    assert_eq!(acc.right_click(), 0);
    assert_eq!(acc.left_click(), 0);
    assert_eq!(acc.cursor(), (0, 0));
    assert_eq!(acc.travel(), 0);
}

#[test]
fn key_releases_are_counted_one_by_one() {
    let mut acc = Accumulators::new();
    let mut sent: u64 = 0;
    while sent < 1_000 {
        assert_eq!(acc.key_count(), sent);
        acc.on_key_up();
        sent += 1;
    }
    assert_eq!(acc.key_count(), 1_000);
    assert_eq!(acc.right_click(), 0);
    assert_eq!(acc.left_click(), 0);
    assert_eq!(acc.travel(), 0);
}

#[test]
fn buttons_one_and_three_are_right_clicks() {
    let mut acc = Accumulators::new();
    acc.on_mouse_down(1);
    assert_eq!(acc.right_click(), 1);
    assert_eq!(acc.left_click(), 0);
    acc.on_mouse_down(3);
    assert_eq!(acc.right_click(), 2);
    assert_eq!(acc.left_click(), 0);
    assert_eq!(acc.key_count(), 0);
}

#[test]
fn other_buttons_are_not_counted() {
    let mut acc = Accumulators::new();
    acc.on_mouse_down(0);
    acc.on_mouse_down(2);
    acc.on_mouse_down(4);
    acc.on_mouse_down(5);
    acc.on_mouse_down(usize::MAX);
    assert_eq!(acc.right_click(), 0);
    assert_eq!(acc.left_click(), 0);
}

#[test]
fn moves_are_measured_from_the_last_position() {
    let mut acc = Accumulators::new();
    acc.on_mouse_move(100, 0);
    assert_eq!(acc.cursor(), (100, 0));
    assert_eq!(acc.travel(), 100_000_000);
    acc.on_mouse_move(100, 100);
    assert_eq!(acc.cursor(), (100, 100));
    assert_eq!(acc.travel(), 200_000_000);
    acc.on_mouse_move(97, 96);
    assert_eq!(acc.cursor(), (97, 96));
    assert_eq!(acc.travel(), 205_000_000);
    acc.on_mouse_move(97, 96);
    assert_eq!(acc.travel(), 205_000_000);
}

#[test]
fn the_first_move_is_measured_from_the_origin() {
    let mut acc = Accumulators::new();
    acc.on_mouse_move(3, 4);
    assert_eq!(acc.travel(), 5_000_000);
}

#[test]
fn travel_stops_at_its_limit() {
    let mut acc = Accumulators::new();
    let mut moves: u32 = 0;
    while moves < 4_000 {
        acc.on_mouse_move(i32::MIN, i32::MIN);
        acc.on_mouse_move(i32::MAX, i32::MAX);
        moves += 2;
    }
    assert_eq!(acc.travel(), u64::MAX);
    assert_eq!(acc.cursor(), (i32::MAX, i32::MAX));
    acc.on_mouse_move(0, 0);
    assert_eq!(acc.travel(), u64::MAX);
}

#[test]
fn record_hands_each_event_to_its_handler() {
    let mut acc = Accumulators::new();
    acc.record(InputEvent::KeyUp);
    acc.record(InputEvent::MouseDown { button: 1 });
    acc.record(InputEvent::MouseDown { button: 2 });
    acc.record(InputEvent::MouseMove { x: 0, y: 10 });
    acc.record(InputEvent::KeyUp);
    assert_eq!(acc.key_count(), 2);
    assert_eq!(acc.right_click(), 1);
    assert_eq!(acc.left_click(), 0);
    assert_eq!(acc.cursor(), (0, 10));
    assert_eq!(acc.travel(), 10_000_000);
}

#[test]
fn reading_does_not_change_an_accumulator() {
    let mut acc = Accumulators::new();
    acc.record(InputEvent::KeyUp);
    acc.record(InputEvent::MouseDown { button: 3 });
    acc.record(InputEvent::MouseMove { x: 6, y: 8 });
    let mut reads: u32 = 0;
    while reads < 10 {
        assert_eq!(acc.key_count(), 1);
        assert_eq!(acc.right_click(), 1);
        assert_eq!(acc.left_click(), 0);
        assert_eq!(acc.cursor(), (6, 8));
        assert_eq!(acc.travel(), 10_000_000);
        reads += 1;
    }
}

#[test]
fn clearing_keys_leaves_the_pointer_alone() {
    let mut acc = Accumulators::new();
    acc.on_key_up();
    acc.on_mouse_down(1);
    acc.on_mouse_move(0, 5);
    acc.clear_keys();
    assert_eq!(acc.key_count(), 0);
    assert_eq!(acc.right_click(), 1);
    assert_eq!(acc.cursor(), (0, 5));
    assert_eq!(acc.travel(), 5_000_000);
}

#[test]
fn clearing_the_pointer_keeps_its_position() {
    let mut acc = Accumulators::new();
    acc.on_key_up();
    acc.on_mouse_down(1);
    acc.on_mouse_move(0, 5);
    acc.clear_pointer();
    assert_eq!(acc.key_count(), 1);
    assert_eq!(acc.right_click(), 0);
    assert_eq!(acc.left_click(), 0);
    assert_eq!(acc.travel(), 0);
    assert_eq!(acc.cursor(), (0, 5));
    acc.on_mouse_move(0, 8);
    assert_eq!(acc.travel(), 3_000_000);
}
