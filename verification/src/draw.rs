//! One frame of the picture, as the commands that paint it.

use vstd::prelude::*;
use crate::boat::Boat;
use crate::world::World;

verus! {

/// The glyph the banks are made of.
pub const BANK_GLYPH: char = '+';

/// The glyph that stands for the boat.
pub const BOAT_GLYPH: char = 'd';

/// A foreground colour of the terminal.
#[derive(Clone, Copy, Debug, PartialEq, Eq, Structural)]
pub enum Tint {
    Yellow,
    /// The terminal's own default colour.
    Reset,
}

/// One command to the terminal. A frame is a sequence of them, to be carried
/// out in order.
#[derive(Clone, Copy, Debug, PartialEq, Eq, Structural)]
pub enum DrawOp {
    /// Clear the whole screen.
    Clear,
    /// Put the cursor on a cell.
    MoveTo { column: u16, row: u16 },
    /// Write `count` copies of `glyph` from the cursor on.
    Print { glyph: char, count: u16 },
    /// Set the foreground colour of what is written next.
    Foreground(Tint),
    /// Send what has been queued to the terminal.
    Flush,
}

impl DrawOp {
    /// Whether a failure of this command fails the frame. A failed flush is
    /// passed over.
    pub fn must_succeed(&self) -> (must: bool)
        ensures
            must <==> !(*self is Flush),
    {
        match self {
            DrawOp::Flush => false,
            _ => true,
        }
    }
}

/// The commands that paint row `row` of the map: the left bank from the first
/// column on, and the right bank, of the same length, from its own column on.
/// A row beyond the last one that a terminal can have is numbered by the low
/// sixteen bits of its place in the map.
pub open spec fn row_ops(map: Seq<(u16, u16)>, row: int) -> Seq<DrawOp> {
    seq![
        DrawOp::MoveTo { column: 0, row: row as u16 },
        DrawOp::Print { glyph: BANK_GLYPH, count: map[row].0 },
        DrawOp::MoveTo { column: map[row].1, row: row as u16 },
        DrawOp::Print { glyph: BANK_GLYPH, count: map[row].0 },
    ]
}

/// The commands that paint the first `rows` rows of the map, top row first.
pub open spec fn banks(map: Seq<(u16, u16)>, rows: nat) -> Seq<DrawOp>
    decreases rows,
{
    if rows == 0 {
        Seq::empty()
    } else {
        banks(map, (rows - 1) as nat) + row_ops(map, rows - 1)
    }
}

/// The commands that paint the boat, in yellow, and send the frame out.
pub open spec fn boat_ops(boat: Boat) -> Seq<DrawOp> {
    seq![
        DrawOp::MoveTo { column: boat.position_x, row: boat.position_y },
        DrawOp::Foreground(Tint::Yellow),
        DrawOp::Print { glyph: BOAT_GLYPH, count: 1 },
        DrawOp::Foreground(Tint::Reset),
        DrawOp::Flush,
    ]
}

/// A whole frame: clear the screen, paint every row of the map, paint the
/// boat.
pub open spec fn frame(map: Seq<(u16, u16)>, boat: Boat) -> Seq<DrawOp> {
    seq![DrawOp::Clear] + banks(map, map.len()) + boat_ops(boat)
}

/// The frame that shows `world` and `boat`.
pub fn draw(world: &World, boat: &Boat) -> (ops: Vec<DrawOp>)
    ensures
        ops@ == frame(world.map@, *boat),
{
    let mut ops: Vec<DrawOp> = Vec::new();
    ops.push(DrawOp::Clear);
    let rows: usize = world.map.len();
    for l in 0..rows
        invariant
            rows == world.map@.len(),
            ops@ == seq![DrawOp::Clear] + banks(world.map@, l as nat),
    {
        let ghost before = ops@;
        let row: u16 = #[verifier::truncate] (l as u16);
        ops.push(DrawOp::MoveTo { column: 0, row });
        ops.push(DrawOp::Print { glyph: BANK_GLYPH, count: world.map[l].0 });
        ops.push(DrawOp::MoveTo { column: world.map[l].1, row });
        ops.push(DrawOp::Print { glyph: BANK_GLYPH, count: world.map[l].0 });
        assert(ops@ == before + row_ops(world.map@, l as int));
    }
    let ghost painted = ops@;
    ops.push(DrawOp::MoveTo { column: boat.position_x, row: boat.position_y });
    ops.push(DrawOp::Foreground(Tint::Yellow));
    ops.push(DrawOp::Print { glyph: BOAT_GLYPH, count: 1 });
    ops.push(DrawOp::Foreground(Tint::Reset));
    ops.push(DrawOp::Flush);
    assert(ops@ == painted + boat_ops(*boat));
    ops
}

proof fn lemma_banks_layout(map: Seq<(u16, u16)>, rows: nat, row: int)
    requires
        0 <= row < rows,
    ensures
        banks(map, rows).len() == 4 * rows,
        banks(map, rows).subrange(4 * row, 4 * row + 4) == row_ops(map, row),
    decreases rows,
{
    let shorter = banks(map, (rows - 1) as nat);
    if rows > 1 {
        lemma_banks_layout(map, (rows - 1) as nat, 0);
    }
    if row < rows - 1 {
        lemma_banks_layout(map, (rows - 1) as nat, row);
        assert(banks(map, rows).subrange(4 * row, 4 * row + 4) == shorter.subrange(
            4 * row,
            4 * row + 4,
        ));
    } else {
        assert(banks(map, rows).subrange(4 * row, 4 * row + 4) == row_ops(map, row));
    }
}

/// The layout of a frame. For a map of `n` rows it is `4 * n + 6` commands
/// long: the clearing of the screen, then the four commands of each row from
/// the top row down, then the five that paint the boat and send the frame
/// out.
pub proof fn law_frame_layout(map: Seq<(u16, u16)>, boat: Boat, row: int)
    ensures
        frame(map, boat).len() == 4 * map.len() + 6,
        frame(map, boat)[0] == DrawOp::Clear,
        0 <= row < map.len() ==> frame(map, boat).subrange(1 + 4 * row, 5 + 4 * row) == row_ops(
            map,
            row,
        ),
        frame(map, boat).subrange(1 + 4 * map.len() as int, 6 + 4 * map.len() as int) == boat_ops(
            boat,
        ),
{
    let painted = banks(map, map.len());
    if map.len() > 0 {
        lemma_banks_layout(map, map.len(), 0);
    }
    assert(painted.len() == 4 * map.len());
    if 0 <= row < map.len() {
        lemma_banks_layout(map, map.len(), row);
        assert(frame(map, boat).subrange(1 + 4 * row, 5 + 4 * row) == painted.subrange(
            4 * row,
            4 * row + 4,
        ));
    }
}

} // verus!
