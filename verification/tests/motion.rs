use boat::boat::{Boat, BoatMechanics};
use boat::motion::{can_reach, mechanics, Key, QUIT_KEY};

const WIDTH: u16 = 80;
const HEIGHT: u16 = 24;

fn press(boat: &mut Boat, key: Key) -> bool {
    assert!(can_reach(boat, Some(key), WIDTH, HEIGHT));
    mechanics(boat, HEIGHT, WIDTH, Some(key))
}

#[test]
fn new_boat_holds_its_coordinates() {
    let boat = Boat::new(40, 23);
    assert_eq!(boat.position_x, 40);
    assert_eq!(boat.position_y, 23);
    assert_eq!(boat, Boat { position_x: 40, position_y: 23 });
}

#[test]
fn plain_moves_shift_one_cell() {
    let mut boat = Boat::new(7, 9);
    boat.move_up();
    assert_eq!(boat, Boat::new(7, 8));
    boat.move_left();
    assert_eq!(boat, Boat::new(6, 8));
    boat.move_down();
    boat.move_down();
    assert_eq!(boat, Boat::new(6, 10));
    boat.move_right();
    assert_eq!(boat, Boat::new(7, 10));
}

#[test]
fn plain_moves_reach_the_ends_of_the_range() {
    let mut boat = Boat::new(1, 1);
    boat.move_up();
    boat.move_left();
    assert_eq!(boat, Boat::new(0, 0));
    let mut far = Boat::new(u16::MAX - 1, u16::MAX - 1);
    far.move_down();
    far.move_right();
    assert_eq!(far, Boat::new(u16::MAX, u16::MAX));
}

#[test]
fn arrows_move_one_cell_inside_the_grid() {
    let mut boat = Boat::new(40, 12);
    assert!(!press(&mut boat, Key::Up));
    assert_eq!(boat, Boat::new(40, 11));
    assert!(!press(&mut boat, Key::Left));
    assert_eq!(boat, Boat::new(39, 11));
    assert!(!press(&mut boat, Key::Down));
    assert_eq!(boat, Boat::new(39, 12));
    assert!(!press(&mut boat, Key::Right));
    assert_eq!(boat, Boat::new(40, 12));
}

#[test]
fn up_from_row_zero_wraps_to_the_last_row() {
    let mut boat = Boat::new(40, 0);
    press(&mut boat, Key::Up);
    assert_eq!(boat, Boat::new(40, HEIGHT - 1));
}

#[test]
fn up_never_rests_on_row_zero() {
    let mut boat = Boat::new(40, 1);
    press(&mut boat, Key::Up);
    assert_eq!(boat, Boat::new(40, HEIGHT - 1));
}

#[test]
fn down_from_the_last_row_wraps_to_row_one() {
    let mut boat = Boat::new(40, HEIGHT - 1);
    press(&mut boat, Key::Down);
    assert_eq!(boat, Boat::new(40, 1));
}

#[test]
fn left_from_column_zero_wraps_to_the_last_column() {
    let mut boat = Boat::new(0, 5);
    press(&mut boat, Key::Left);
    assert_eq!(boat, Boat::new(WIDTH - 1, 5));
}

#[test]
fn left_never_rests_on_column_zero() {
    let mut boat = Boat::new(1, 5);
    press(&mut boat, Key::Left);
    assert_eq!(boat, Boat::new(WIDTH - 1, 5));
}

#[test]
fn right_from_the_last_column_wraps_to_column_one() {
    let mut boat = Boat::new(WIDTH - 1, 5);
    press(&mut boat, Key::Right);
    assert_eq!(boat, Boat::new(1, 5));
}

#[test]
fn quit_key_stops_and_moves_nothing() {
    let mut boat = Boat::new(40, 23);
    assert_eq!(QUIT_KEY, 'q');
    assert!(press(&mut boat, Key::Char('q')));
    assert_eq!(boat, Boat::new(40, 23));
}

#[test]
fn other_keys_change_nothing() {
    for key in [Key::Char('Q'), Key::Char('x'), Key::Char(' '), Key::Other] {
        let mut boat = Boat::new(40, 23);
        assert!(!press(&mut boat, key));
        assert_eq!(boat, Boat::new(40, 23));
    }
}

#[test]
fn no_key_changes_nothing() {
    let mut boat = Boat::new(0, 0);
    assert!(can_reach(&boat, None, WIDTH, HEIGHT));
    assert!(!mechanics(&mut boat, HEIGHT, WIDTH, None));
    assert_eq!(boat, Boat::new(0, 0));
}

#[test]
fn up_then_down_returns_to_the_start() {
    for row in 2..HEIGHT {
        let start = Boat::new(40, row);
        let mut boat = start;
        for _ in 0..3 {
            press(&mut boat, Key::Up);
            assert_eq!(boat, Boat::new(40, row - 1));
            press(&mut boat, Key::Down);
            assert_eq!(boat, start);
        }
    }
}

#[test]
fn left_then_right_returns_to_the_start() {
    for column in 2..WIDTH {
        let start = Boat::new(column, 12);
        let mut boat = start;
        for _ in 0..3 {
            press(&mut boat, Key::Left);
            assert_eq!(boat, Boat::new(column - 1, 12));
            press(&mut boat, Key::Right);
            assert_eq!(boat, start);
        }
    }
}

#[test]
fn up_then_down_across_the_edge_does_not_return() {
    let mut boat = Boat::new(40, 1);
    press(&mut boat, Key::Up);
    press(&mut boat, Key::Down);
    assert_eq!(boat, Boat::new(40, 1));
    let mut low = Boat::new(40, 0);
    press(&mut low, Key::Up);
    press(&mut low, Key::Down);
    assert_eq!(low, Boat::new(40, 1));
}

#[test]
fn twenty_three_ups_from_the_bottom_row() {
    let mut boat = Boat::new(40, 23);
    let mut rows: Vec<u16> = Vec::new();
    for _ in 0..23 {
        assert!(!press(&mut boat, Key::Up));
        rows.push(boat.position_y);
    }
    let expected: Vec<u16> = vec![
        22, 21, 20, 19, 18, 17, 16, 15, 14, 13, 12, 11, 10, 9, 8, 7, 6, 5, 4, 3, 2, 1, 23,
    ];
    assert_eq!(rows, expected);
    assert_eq!(boat, Boat::new(40, 23));
}

#[test]
fn boat_stays_within_the_grid() {
    let keys = [Key::Up, Key::Left, Key::Down, Key::Right, Key::Down, Key::Left];
    let mut boat = Boat::new(WIDTH / 2, HEIGHT - 1);
    for round in 0..200 {
        let key = keys[(round * 7 + round / 3) % keys.len()];
        press(&mut boat, key);
        assert!(boat.position_x < WIDTH);
        assert!(boat.position_y < HEIGHT);
    }
}

#[test]
fn smallest_grid_that_keeps_the_boat_inside() {
    let mut boat = Boat::new(1, 1);
    for key in [Key::Up, Key::Down, Key::Left, Key::Right] {
        assert!(can_reach(&boat, Some(key), 2, 2));
        mechanics(&mut boat, 2, 2, Some(key));
        assert_eq!(boat, Boat::new(1, 1));
    }
}

#[test]
fn single_row_grid_lets_the_boat_out() {
    let mut boat = Boat::new(5, 0);
    assert!(can_reach(&boat, Some(Key::Down), 80, 1));
    mechanics(&mut boat, 1, 80, Some(Key::Down));
    assert_eq!(boat, Boat::new(5, 1));
}

#[test]
fn moves_that_cannot_be_made_are_told_apart() {
    assert!(!can_reach(&Boat::new(0, 0), Some(Key::Up), 80, 0));
    assert!(!can_reach(&Boat::new(0, 1), Some(Key::Up), 80, 0));
    assert!(can_reach(&Boat::new(0, 2), Some(Key::Up), 80, 0));
    assert!(!can_reach(&Boat::new(1, 0), Some(Key::Left), 0, 24));
    assert!(can_reach(&Boat::new(2, 0), Some(Key::Left), 0, 24));
    assert!(!can_reach(&Boat::new(0, u16::MAX), Some(Key::Down), 80, 24));
    assert!(can_reach(&Boat::new(0, u16::MAX - 1), Some(Key::Down), 80, 24));
    assert!(!can_reach(&Boat::new(u16::MAX, 0), Some(Key::Right), 80, 24));
    assert!(can_reach(&Boat::new(u16::MAX, 0), Some(Key::Char('q')), 80, 24));
    assert!(can_reach(&Boat::new(u16::MAX, u16::MAX), None, 0, 0));
}

#[test]
fn moves_outside_the_grid_follow_the_same_rule() {
    let mut boat = Boat::new(100, 50);
    assert!(can_reach(&boat, Some(Key::Up), WIDTH, HEIGHT));
    mechanics(&mut boat, HEIGHT, WIDTH, Some(Key::Up));
    assert_eq!(boat, Boat::new(100, 49));
    mechanics(&mut boat, HEIGHT, WIDTH, Some(Key::Right));
    assert_eq!(boat, Boat::new(101, 49));
    let mut top = Boat::new(0, u16::MAX - 1);
    mechanics(&mut top, u16::MAX, WIDTH, Some(Key::Down));
    assert_eq!(top, Boat::new(0, 1));
}

#[test]
fn display_reports_the_position() {
    assert_eq!(
        Boat::new(40, 23).display(),
        "\x1B[2J\x1B[1;1HCurrent Boat Position: (40, 23)\n"
    );
}

#[test]
fn display_writes_numbers_in_decimal() {
    let report = |x: u16, y: u16| Boat::new(x, y).display();
    assert_eq!(report(0, 0), "\x1B[2J\x1B[1;1HCurrent Boat Position: (0, 0)\n");
    assert_eq!(report(9, 10), "\x1B[2J\x1B[1;1HCurrent Boat Position: (9, 10)\n");
    assert_eq!(report(100, 1005), "\x1B[2J\x1B[1;1HCurrent Boat Position: (100, 1005)\n");
    assert_eq!(report(65535, 12345), "\x1B[2J\x1B[1;1HCurrent Boat Position: (65535, 12345)\n");
    for x in [0u16, 7, 19, 80, 999, 1000, 40960, u16::MAX] {
        assert_eq!(
            report(x, x / 3),
            format!("\x1B[2J\x1B[1;1HCurrent Boat Position: ({}, {})\n", x, x / 3)
        );
    }
}
