//! The static scenery: a channel between two banks, one entry per row.

use vstd::prelude::*;

verus! {

/// Half the width of the channel, in columns.
pub const CHANNEL_HALF_WIDTH: u16 = 5;

/// The terminal's size as captured at startup, and the banks of the channel.
///
/// Entry `r` of `map` describes row `r`: the length of each bank, and the
/// column where the right bank begins.
#[derive(Debug, PartialEq, Eq)]
pub struct World {
    pub width: u16,
    pub height: u16,
    pub map: Vec<(u16, u16)>,
}

/// A [`World`] as plain mathematical values.
pub struct WorldView {
    pub width: u16,
    pub height: u16,
    pub map: Seq<(u16, u16)>,
}

impl View for World {
    type V = WorldView;

    open spec fn view(&self) -> WorldView {
        WorldView { width: self.width, height: self.height, map: self.map@ }
    }
}

/// The banks of one row on a terminal `width` columns wide: the channel is
/// ten columns wide and centred on the middle column.
pub open spec fn bank(width: u16) -> (u16, u16) {
    ((width / 2 - CHANNEL_HALF_WIDTH) as u16, (width / 2 + CHANNEL_HALF_WIDTH) as u16)
}

/// The world of a terminal of `width` by `height` cells: the same banks on
/// every row.
pub open spec fn channel(width: u16, height: u16) -> WorldView {
    WorldView { width, height, map: Seq::new(height as nat, |row: int| bank(width)) }
}

impl World {
    /// The map has one entry for each row of the terminal.
    pub open spec fn wf(&self) -> bool {
        self.map@.len() == self.height
    }

    /// The world of a terminal of `width` by `height` cells. The terminal
    /// must be wide enough to hold the channel.
    pub fn new(width: u16, height: u16) -> (world: World)
        requires
            width >= 2 * CHANNEL_HALF_WIDTH,
        ensures
            world@ == channel(width, height),
            world.wf(),
    {
        let banks: (u16, u16) = (width / 2 - CHANNEL_HALF_WIDTH, width / 2 + CHANNEL_HALF_WIDTH);
        let mut map: Vec<(u16, u16)> = Vec::new();
        let mut row: u16 = 0;
        while row < height
            invariant
                row <= height,
                banks == bank(width),
                map@ == Seq::new(row as nat, |r: int| bank(width)),
            decreases height - row,
        {
            map.push(banks);
            row += 1;
        }
        World { width, height, map }
    }
}

} // verus!
