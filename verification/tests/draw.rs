use boat::boat::Boat;
use boat::draw::{draw, DrawOp, Tint, BANK_GLYPH, BOAT_GLYPH};
use boat::world::{World, CHANNEL_HALF_WIDTH};

fn boat_tail(column: u16, row: u16) -> Vec<DrawOp> {
    vec![
        DrawOp::MoveTo { column, row },
        DrawOp::Foreground(Tint::Yellow),
        DrawOp::Print { glyph: 'd', count: 1 },
        DrawOp::Foreground(Tint::Reset),
        DrawOp::Flush,
    ]
}

#[test]
fn glyphs_and_channel_width() {
    assert_eq!(BANK_GLYPH, '+');
    assert_eq!(BOAT_GLYPH, 'd');
    assert_eq!(CHANNEL_HALF_WIDTH, 5);
}

#[test]
fn world_of_a_common_terminal() {
    let world = World::new(80, 24);
    assert_eq!(world.width, 80);
    assert_eq!(world.height, 24);
    assert_eq!(world.map, vec![(35u16, 45u16); 24]);
}

#[test]
fn world_of_an_odd_width() {
    let world = World::new(81, 3);
    assert_eq!(world.map, vec![(35u16, 45u16); 3]);
    let wide = World::new(u16::MAX, 1);
    assert_eq!(wide.map, vec![(32762u16, 32772u16)]);
}

#[test]
fn narrowest_world_has_no_left_bank() {
    let world = World::new(10, 2);
    assert_eq!(world.map, vec![(0u16, 10u16), (0u16, 10u16)]);
}

#[test]
fn world_without_rows_has_an_empty_map() {
    let world = World::new(80, 0);
    assert_eq!(world.height, 0);
    assert!(world.map.is_empty());
}

#[test]
fn tallest_world_has_a_row_for_each_line() {
    let world = World::new(20, u16::MAX);
    assert_eq!(world.map.len(), 65535);
    assert_eq!(world.map[65534], (5, 15));
}

#[test]
fn frame_of_an_empty_map_shows_the_boat_alone() {
    let world = World { width: 80, height: 0, map: Vec::new() };
    let mut expected = vec![DrawOp::Clear];
    expected.extend(boat_tail(3, 4));
    assert_eq!(draw(&world, &Boat::new(3, 4)), expected);
}

#[test]
fn frame_of_two_rows() {
    let world = World::new(80, 2);
    let ops = draw(&world, &Boat::new(40, 1));
    let expected = vec![
        DrawOp::Clear,
        DrawOp::MoveTo { column: 0, row: 0 },
        DrawOp::Print { glyph: '+', count: 35 },
        DrawOp::MoveTo { column: 45, row: 0 },
        DrawOp::Print { glyph: '+', count: 35 },
        DrawOp::MoveTo { column: 0, row: 1 },
        DrawOp::Print { glyph: '+', count: 35 },
        DrawOp::MoveTo { column: 45, row: 1 },
        DrawOp::Print { glyph: '+', count: 35 },
        DrawOp::MoveTo { column: 40, row: 1 },
        DrawOp::Foreground(Tint::Yellow),
        DrawOp::Print { glyph: 'd', count: 1 },
        DrawOp::Foreground(Tint::Reset),
        DrawOp::Flush,
    ];
    assert_eq!(ops, expected);
}

#[test]
fn frame_follows_a_map_of_uneven_rows() {
    let world = World { width: 30, height: 3, map: vec![(1, 20), (0, 7), (9, 9)] };
    let ops = draw(&world, &Boat::new(0, 0));
    assert_eq!(ops.len(), 4 * 3 + 6);
    assert_eq!(ops[1], DrawOp::MoveTo { column: 0, row: 0 });
    assert_eq!(ops[2], DrawOp::Print { glyph: '+', count: 1 });
    assert_eq!(ops[3], DrawOp::MoveTo { column: 20, row: 0 });
    assert_eq!(ops[4], DrawOp::Print { glyph: '+', count: 1 });
    assert_eq!(ops[6], DrawOp::Print { glyph: '+', count: 0 });
    assert_eq!(ops[7], DrawOp::MoveTo { column: 7, row: 1 });
    assert_eq!(ops[9], DrawOp::MoveTo { column: 0, row: 2 });
    assert_eq!(ops[10], DrawOp::Print { glyph: '+', count: 9 });
    assert_eq!(ops[11], DrawOp::MoveTo { column: 9, row: 2 });
    assert_eq!(ops[12], DrawOp::Print { glyph: '+', count: 9 });
    assert_eq!(ops[13..].to_vec(), boat_tail(0, 0));
}

#[test]
fn frame_of_a_full_terminal() {
    let world = World::new(80, 24);
    let ops = draw(&world, &Boat::new(40, 23));
    assert_eq!(ops.len(), 4 * 24 + 6);
    assert_eq!(ops[0], DrawOp::Clear);
    for row in 0..24u16 {
        let first = 1 + 4 * row as usize;
        assert_eq!(ops[first], DrawOp::MoveTo { column: 0, row });
        assert_eq!(ops[first + 1], DrawOp::Print { glyph: '+', count: 35 });
        assert_eq!(ops[first + 2], DrawOp::MoveTo { column: 45, row });
        assert_eq!(ops[first + 3], DrawOp::Print { glyph: '+', count: 35 });
    }
    assert_eq!(ops[97..].to_vec(), boat_tail(40, 23));
}

#[test]
fn frame_numbers_the_last_row_a_terminal_can_have() {
    let world = World { width: 10, height: u16::MAX, map: vec![(2, 3); 65536] };
    let ops = draw(&world, &Boat::new(1, 1));
    assert_eq!(ops.len(), 4 * 65536 + 6);
    assert_eq!(ops[1 + 4 * 65535], DrawOp::MoveTo { column: 0, row: 65535 });
    assert_eq!(ops[3 + 4 * 65535], DrawOp::MoveTo { column: 3, row: 65535 });
}

#[test]
fn frame_numbers_rows_beyond_the_last_by_their_low_bits() {
    let world = World { width: 10, height: 2, map: vec![(2, 3); 65538] };
    let ops = draw(&world, &Boat::new(1, 1));
    assert_eq!(ops.len(), 4 * 65538 + 6);
    assert_eq!(ops[1 + 4 * 65536], DrawOp::MoveTo { column: 0, row: 0 });
    assert_eq!(ops[3 + 4 * 65536], DrawOp::MoveTo { column: 3, row: 0 });
    assert_eq!(ops[1 + 4 * 65537], DrawOp::MoveTo { column: 0, row: 1 });
}

#[test]
fn only_a_failed_flush_is_passed_over() {
    assert!(DrawOp::Clear.must_succeed());
    assert!(DrawOp::MoveTo { column: 0, row: 0 }.must_succeed());
    assert!(DrawOp::Print { glyph: '+', count: 3 }.must_succeed());
    assert!(DrawOp::Foreground(Tint::Yellow).must_succeed());
    assert!(DrawOp::Foreground(Tint::Reset).must_succeed());
    assert!(!DrawOp::Flush.must_succeed());
}
