use axe_man_adventure::direction::{lancer_face_axe_man, Direction};

fn face(dx: f32, dy: f32) -> Direction {
    lancer_face_axe_man(dx < dy, -dx < dy)
}

#[test]
fn unit_steps() {
    assert_eq!(Direction::North.as_vec2(), (0, 1));
    assert_eq!(Direction::East.as_vec2(), (1, 0));
    assert_eq!(Direction::South.as_vec2(), (0, -1));
    assert_eq!(Direction::West.as_vec2(), (-1, 0));
}

#[test]
fn one_key_picks_its_direction() {
    assert_eq!(Direction::from_keys(true, false, false, false), Some(Direction::North));
    assert_eq!(Direction::from_keys(false, true, false, false), Some(Direction::East));
    assert_eq!(Direction::from_keys(false, false, true, false), Some(Direction::South));
    assert_eq!(Direction::from_keys(false, false, false, true), Some(Direction::West));
}

#[test]
fn no_key_or_several_keys_pick_nothing() {
    assert_eq!(Direction::from_keys(false, false, false, false), None);
    assert_eq!(Direction::from_keys(true, true, false, false), None);
    assert_eq!(Direction::from_keys(true, false, true, false), None);
    assert_eq!(Direction::from_keys(true, true, true, true), None);
}

#[test]
fn only_west_is_mirrored() {
    assert!(Direction::West.flip_x());
    assert!(!Direction::East.flip_x());
    assert!(!Direction::North.flip_x());
    assert!(!Direction::South.flip_x());
}

#[test]
fn lancer_faces_the_axe_man() {
    assert_eq!(face(0.0, 32.0), Direction::North);
    assert_eq!(face(0.0, -32.0), Direction::South);
    assert_eq!(face(32.0, 0.0), Direction::East);
    assert_eq!(face(-32.0, 0.0), Direction::West);
    assert_eq!(face(48.0, 16.0), Direction::East);
    assert_eq!(face(-16.0, -48.0), Direction::South);
}

#[test]
fn lancer_facing_on_the_diagonals() {
    // On a diagonal the comparisons are strict: the tie goes East or West
    // above the Lancer, and South below him or at his own spot.
    assert_eq!(face(16.0, 16.0), Direction::East);
    assert_eq!(face(-16.0, 16.0), Direction::West);
    assert_eq!(face(-16.0, -16.0), Direction::South);
    assert_eq!(face(16.0, -16.0), Direction::South);
    assert_eq!(face(0.0, 0.0), Direction::South);
}
