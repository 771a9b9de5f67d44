use tile_based_game::{resolve_direction, Direction, PressedSet};

#[test]
fn nothing_pressed_resolves_to_no_direction() {
    assert_eq!(resolve_direction(&PressedSet::new()), None);
    assert_eq!(resolve_direction(&PressedSet::from_directions(&[])), None);
}

#[test]
fn a_single_direction_resolves_to_itself() {
    for direction in [Direction::Up, Direction::Down, Direction::Left, Direction::Right] {
        let pressed = PressedSet::from_directions(&[direction]);
        assert_eq!(resolve_direction(&pressed), Some(direction));
    }
}

#[test]
fn up_wins_over_right() {
    let pressed = PressedSet::from_directions(&[Direction::Up, Direction::Right]);
    assert_eq!(resolve_direction(&pressed), Some(Direction::Up));
}

#[test]
fn left_wins_over_down() {
    let pressed = PressedSet::from_directions(&[Direction::Down, Direction::Left]);
    assert_eq!(resolve_direction(&pressed), Some(Direction::Left));
}

#[test]
fn down_wins_over_right() {
    let pressed = PressedSet::from_directions(&[Direction::Right, Direction::Down]);
    assert_eq!(resolve_direction(&pressed), Some(Direction::Down));
}

#[test]
fn up_wins_over_everything() {
    let pressed = PressedSet::from_directions(
        &[Direction::Right, Direction::Down, Direction::Left, Direction::Up],
    );
    assert_eq!(resolve_direction(&pressed), Some(Direction::Up));
}

#[test]
fn every_subset_resolves_to_its_first_in_order() {
    let order = [Direction::Up, Direction::Left, Direction::Down, Direction::Right];
    let mut mask: u32 = 0;
    while mask < 16 {
        let mut pressed = PressedSet::new();
        let mut expected: Option<Direction> = None;
        for (place, direction) in order.iter().enumerate() {
            if mask & (1 << place) != 0 {
                pressed.press(*direction);
                if expected.is_none() {
                    expected = Some(*direction);
                }
            }
        }
        assert_eq!(resolve_direction(&pressed), expected);
        mask += 1;
    }
}

#[test]
fn resolving_twice_gives_the_same_direction() {
    let pressed = PressedSet::from_directions(&[Direction::Down, Direction::Right]);
    let first = resolve_direction(&pressed);
    let second = resolve_direction(&pressed);
    assert_eq!(first, second);
    assert_eq!(first, Some(Direction::Down));
}

#[test]
fn order_and_repetition_of_the_input_do_not_matter() {
    let one = PressedSet::from_directions(&[Direction::Right, Direction::Left]);
    let other = PressedSet::from_directions(
        &[Direction::Left, Direction::Right, Direction::Left, Direction::Right],
    );
    assert_eq!(one, other);
    assert_eq!(resolve_direction(&one), resolve_direction(&other));
    assert_eq!(resolve_direction(&one), Some(Direction::Left));
}

#[test]
fn press_records_a_direction_once() {
    let mut pressed = PressedSet::new();
    assert!(!pressed.contains(Direction::Down));
    pressed.press(Direction::Down);
    assert!(pressed.contains(Direction::Down));
    assert!(!pressed.contains(Direction::Up));
    assert!(!pressed.contains(Direction::Left));
    assert!(!pressed.contains(Direction::Right));
    let once = pressed;
    pressed.press(Direction::Down);
    assert_eq!(pressed, once);
}

#[test]
fn from_directions_holds_what_is_listed() {
    let pressed = PressedSet::from_directions(&[Direction::Left, Direction::Up]);
    assert!(pressed.contains(Direction::Up));
    assert!(pressed.contains(Direction::Left));
    assert!(!pressed.contains(Direction::Down));
    assert!(!pressed.contains(Direction::Right));
}

#[test]
fn precedence_order_is_up_left_down_right() {
    assert_eq!(
        tile_based_game::controller::precedence_order(),
        [Direction::Up, Direction::Left, Direction::Down, Direction::Right]
    );
}
