//! The boat and its plain one-cell moves.

use vstd::prelude::*;
use vstd::string::StringExecFns;

verus! {

/// The movable entity: a column and a row of the terminal grid.
#[derive(Clone, Copy, Debug, PartialEq, Eq, Structural)]
pub struct Boat {
    pub position_x: u16,
    pub position_y: u16,
}

impl Boat {
    /// Creates a new [`Boat`] at column `x`, row `y`.
    pub fn new(x: u16, y: u16) -> (boat: Boat)
        ensures
            boat.position_x == x,
            boat.position_y == y,
    {
        Boat { position_x: x, position_y: y }
    }

    /// The boat stands on a grid of `width` columns and `height` rows.
    pub open spec fn within(self, width: u16, height: u16) -> bool {
        self.position_x < width && self.position_y < height
    }

    /// The text that reports where the boat is: it clears the terminal, puts
    /// the cursor in its top left corner and names the position on a line of
    /// its own.
    pub open spec fn report(self) -> Seq<char> {
        "\x1B[2J\x1B[1;1H"@ + "Current Boat Position: ("@ + decimal(self.position_x as nat) + ", "@
            + decimal(self.position_y as nat) + ")\n"@
    }

    /// The report of the boat's position, for the caller to print.
    pub fn display(&self) -> (text: String)
        ensures
            text@ == self.report(),
    {
        let mut text = String::new();
        text.append("\x1B[2J\x1B[1;1H");
        text.append("Current Boat Position: (");
        append_decimal(&mut text, self.position_x);
        text.append(", ");
        append_decimal(&mut text, self.position_y);
        text.append(")\n");
        text
    }
}

/// The ten digits, in order.
pub open spec fn digits() -> Seq<char> {
    seq!['0', '1', '2', '3', '4', '5', '6', '7', '8', '9']
}

/// The decimal numeral of `n`: its digits, the most significant first, with
/// no leading zero but for zero itself.
pub open spec fn decimal(n: nat) -> Seq<char>
    decreases n,
{
    if n < 10 {
        seq![digits()[n as int]]
    } else {
        decimal(n / 10).push(digits()[(n % 10) as int])
    }
}

fn digit_text(d: u16) -> (text: &'static str)
    requires
        d < 10,
    ensures
        text@ == seq![digits()[d as int]],
{
    proof {
        reveal_strlit("0");
        reveal_strlit("1");
        reveal_strlit("2");
        reveal_strlit("3");
        reveal_strlit("4");
        reveal_strlit("5");
        reveal_strlit("6");
        reveal_strlit("7");
        reveal_strlit("8");
        reveal_strlit("9");
    }
    let text = match d {
        0 => "0",
        1 => "1",
        2 => "2",
        3 => "3",
        4 => "4",
        5 => "5",
        6 => "6",
        7 => "7",
        8 => "8",
        _ => "9",
    };
    assert(text@ =~= seq![digits()[d as int]]);
    text
}

fn append_decimal(text: &mut String, n: u16)
    ensures
        final(text)@ == old(text)@ + decimal(n as nat),
    decreases n,
{
    if n >= 10 {
        append_decimal(text, n / 10);
    }
    text.append(digit_text(n % 10));
}

/// One-cell moves that know nothing of the grid's edges.
pub trait BoatMechanics {
    /// The column the mover stands in.
    spec fn column(&self) -> int;

    /// The row the mover stands in.
    spec fn row(&self) -> int;

    fn move_up(&mut self)
        requires
            old(self).row() > 0,
        ensures
            final(self).row() == old(self).row() - 1,
            final(self).column() == old(self).column(),
    ;

    fn move_down(&mut self)
        requires
            old(self).row() < u16::MAX,
        ensures
            final(self).row() == old(self).row() + 1,
            final(self).column() == old(self).column(),
    ;

    fn move_left(&mut self)
        requires
            old(self).column() > 0,
        ensures
            final(self).column() == old(self).column() - 1,
            final(self).row() == old(self).row(),
    ;

    fn move_right(&mut self)
        requires
            old(self).column() < u16::MAX,
        ensures
            final(self).column() == old(self).column() + 1,
            final(self).row() == old(self).row(),
    ;
}

impl BoatMechanics for Boat {
    open spec fn column(&self) -> int {
        self.position_x as int
    }

    open spec fn row(&self) -> int {
        self.position_y as int
    }

    fn move_up(&mut self) {
        self.position_y -= 1;
    }

    fn move_down(&mut self) {
        self.position_y += 1;
    }

    fn move_left(&mut self) {
        self.position_x -= 1;
    }

    fn move_right(&mut self) {
        self.position_x += 1;
    }
}

} // verus!
