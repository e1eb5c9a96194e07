use arena_shooter::input::KeyboardInput;
use arena_shooter::movement::movement_intent;

fn wasd(w: bool, a: bool, s: bool, d: bool) -> KeyboardInput {
    let mut keys = KeyboardInput::released();
    keys.w = w;
    keys.a = a;
    keys.s = s;
    keys.d = d;
    keys
}

#[test]
fn no_movement_key_gives_no_push() {
    assert_eq!(movement_intent(&KeyboardInput::released()), (0, 0));
}

#[test]
fn single_movement_keys_push_along_one_axis() {
    assert_eq!(movement_intent(&wasd(true, false, false, false)), (0, 1));
    assert_eq!(movement_intent(&wasd(false, true, false, false)), (-1, 0));
    assert_eq!(movement_intent(&wasd(false, false, true, false)), (0, -1));
    assert_eq!(movement_intent(&wasd(false, false, false, true)), (1, 0));
}

#[test]
fn two_movement_keys_push_along_both_axes() {
    assert_eq!(movement_intent(&wasd(true, true, false, false)), (-1, 1));
    assert_eq!(movement_intent(&wasd(true, false, false, true)), (1, 1));
    assert_eq!(movement_intent(&wasd(false, true, true, false)), (-1, -1));
    assert_eq!(movement_intent(&wasd(false, false, true, true)), (1, -1));
}

#[test]
fn opposed_movement_keys_are_settled_by_w_and_a() {
    assert_eq!(movement_intent(&wasd(true, false, true, false)), (0, 1));
    assert_eq!(movement_intent(&wasd(false, true, false, true)), (-1, 0));
    assert_eq!(movement_intent(&wasd(true, true, true, true)), (-1, 1));
}

#[test]
fn arrow_and_fire_keys_do_not_move() {
    let mut keys = KeyboardInput::released();
    keys.up = true;
    keys.down = true;
    keys.left = true;
    keys.right = true;
    keys.space = true;
    assert_eq!(movement_intent(&keys), (0, 0));
}
