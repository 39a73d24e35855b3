use math_world::input::{Direction, HeldKeys};

fn keys(up: bool, down: bool, left: bool, right: bool) -> HeldKeys {
    HeldKeys { up, down, left, right }
}

#[test]
fn no_key_gives_no_movement() {
    assert_eq!(keys(false, false, false, false).direction(), Direction { dx: 0, dy: 0 });
}

#[test]
fn each_key_moves_along_its_axis() {
    assert_eq!(keys(true, false, false, false).direction(), Direction { dx: 0, dy: 1 });
    assert_eq!(keys(false, true, false, false).direction(), Direction { dx: 0, dy: -1 });
    assert_eq!(keys(false, false, true, false).direction(), Direction { dx: -1, dy: 0 });
    assert_eq!(keys(false, false, false, true).direction(), Direction { dx: 1, dy: 0 });
}

#[test]
fn diagonal_is_not_normalised() {
    assert_eq!(keys(true, false, false, true).direction(), Direction { dx: 1, dy: 1 });
    assert_eq!(keys(false, true, true, false).direction(), Direction { dx: -1, dy: -1 });
    assert_eq!(keys(true, false, true, false).direction(), Direction { dx: -1, dy: 1 });
    assert_eq!(keys(false, true, false, true).direction(), Direction { dx: 1, dy: -1 });
}

#[test]
fn opposite_keys_cancel() {
    assert_eq!(keys(true, true, false, false).direction(), Direction { dx: 0, dy: 0 });
    assert_eq!(keys(false, false, true, true).direction(), Direction { dx: 0, dy: 0 });
    assert_eq!(keys(true, true, true, true).direction(), Direction { dx: 0, dy: 0 });
    assert_eq!(keys(true, true, false, true).direction(), Direction { dx: 1, dy: 0 });
}

#[test]
fn every_combination_sums_unit_contributions() {
    for bits in 0u8..16 {
        let k = keys(bits & 1 != 0, bits & 2 != 0, bits & 4 != 0, bits & 8 != 0);
        let d = k.direction();
        let dx = (k.right as i8) - (k.left as i8);
        let dy = (k.up as i8) - (k.down as i8);
        assert_eq!(d, Direction { dx, dy });
    }
}
