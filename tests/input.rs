use miye::input::{movement_for_key, Axis, KeyCode, KeyState, Movement, Step};

#[test]
fn each_movement_key_maps_to_its_direction() {
    let cases = [
        (KeyCode::KeyW, Movement::Forward, Axis::Forward, true),
        (KeyCode::KeyS, Movement::Backward, Axis::Forward, false),
        (KeyCode::KeyD, Movement::Right, Axis::Right, true),
        (KeyCode::KeyA, Movement::Left, Axis::Right, false),
        (KeyCode::KeyE, Movement::Up, Axis::WorldUp, true),
        (KeyCode::KeyQ, Movement::Down, Axis::WorldUp, false),
    ];
    for (code, movement, axis, positive) in cases {
        let m = movement_for_key(code, KeyState::Pressed);
        assert_eq!(m, Some(movement));
        assert_eq!(m.unwrap().step(), Step { axis, positive });
    }
}

#[test]
fn releases_and_other_keys_do_not_move() {
    assert_eq!(movement_for_key(KeyCode::KeyW, KeyState::Released), None);
    assert_eq!(movement_for_key(KeyCode::KeyQ, KeyState::Released), None);
    assert_eq!(movement_for_key(KeyCode::Other, KeyState::Pressed), None);
}
