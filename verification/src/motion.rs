//! One key press moves the boat one cell; the grid's edges wrap around.

use vstd::prelude::*;
use crate::boat::Boat;

verus! {

/// The character key that ends the session.
pub const QUIT_KEY: char = 'q';

/// What the keyboard delivered, as far as the boat cares.
#[derive(Clone, Copy, Debug, PartialEq, Eq, Structural)]
pub enum Key {
    Up,
    Down,
    Left,
    Right,
    /// A printable key.
    Char(char),
    /// Any other key, and any event that is no key press at all.
    Other,
}

impl Key {
    /// The key asks for the session to end.
    pub open spec fn is_quit(self) -> bool {
        self == Key::Char(QUIT_KEY)
    }

    /// The key is one of the four arrows.
    pub open spec fn is_arrow(self) -> bool {
        self is Up || self is Down || self is Left || self is Right
    }
}

/// One cell towards the origin along an axis of `extent` cells. A step that
/// starts on cell 0, or would come to rest on it, ends on the last cell
/// instead: cell 0 is never a resting place of this move.
pub open spec fn step_back(pos: int, extent: int) -> int {
    if pos <= 1 {
        extent - 1
    } else {
        pos - 1
    }
}

/// One cell away from the origin along an axis of `extent` cells. A step that
/// would leave the axis at `extent` ends on cell 1, not on cell 0.
pub open spec fn step_forth(pos: int, extent: int) -> int {
    if pos + 1 == extent {
        1
    } else {
        pos + 1
    }
}

/// Column and row that `key` sends `boat` to on a grid of `width` by
/// `height` cells, as unbounded integers. No key, and every key that is no
/// arrow, leaves the boat where it is.
pub open spec fn destination(boat: Boat, key: Option<Key>, width: u16, height: u16) -> (int, int) {
    let x = boat.position_x as int;
    let y = boat.position_y as int;
    match key {
        Some(Key::Up) => (x, step_back(y, height as int)),
        Some(Key::Down) => (x, step_forth(y, height as int)),
        Some(Key::Left) => (step_back(x, width as int), y),
        Some(Key::Right) => (step_forth(x, width as int), y),
        _ => (x, y),
    }
}

/// The destination of the move can be held in a [`Boat`]: neither
/// coordinate leaves the range of a `u16`.
pub open spec fn reachable(boat: Boat, key: Option<Key>, width: u16, height: u16) -> bool {
    let (x, y) = destination(boat, key, width, height);
    0 <= x <= u16::MAX && 0 <= y <= u16::MAX
}

/// The boat after `key`.
pub open spec fn moved(boat: Boat, key: Option<Key>, width: u16, height: u16) -> Boat {
    let (x, y) = destination(boat, key, width, height);
    Boat { position_x: x as u16, position_y: y as u16 }
}

/// Whether the move that `key` asks of `boat` can be made.
pub fn can_reach(boat: &Boat, key: Option<Key>, width: u16, height: u16) -> (ok: bool)
    ensures
        ok <==> reachable(*boat, key, width, height),
{
    match key {
        Some(Key::Up) => boat.position_y > 1 || height >= 1,
        Some(Key::Down) => boat.position_y < u16::MAX,
        Some(Key::Left) => boat.position_x > 1 || width >= 1,
        Some(Key::Right) => boat.position_x < u16::MAX,
        _ => true,
    }
}

/// Applies one polled key to the boat and tells whether the session is to
/// stop. `key` is `None` when the poll timed out.
pub fn mechanics(boat: &mut Boat, height: u16, width: u16, key: Option<Key>) -> (stop: bool)
    requires
        reachable(*old(boat), key, width, height),
    ensures
        *final(boat) == moved(*old(boat), key, width, height),
        stop <==> key == Some(Key::Char(QUIT_KEY)),
        // Only the arrows move the boat.
        !(key matches Some(k) && k.is_arrow()) ==> *final(boat) == *old(boat),
        // The edges wrap, each in its own way.
        key == Some(Key::Up) && old(boat).position_y == 0 ==> final(boat).position_y == height - 1,
        key == Some(Key::Down) && old(boat).position_y == height - 1 ==> final(boat).position_y == 1,
        key == Some(Key::Left) && old(boat).position_x == 0 ==> final(boat).position_x == width - 1,
        key == Some(Key::Right) && old(boat).position_x == width - 1 ==> final(boat).position_x == 1,
        // On a grid of at least two cells each way the boat never leaves it.
        old(boat).within(width, height) && width >= 2 && height >= 2 ==> final(boat).within(
            width,
            height,
        ),
{
    match key {
        Some(Key::Char(c)) => {
            return c == QUIT_KEY;
        },
        Some(Key::Up) => {
            if boat.position_y <= 1 {
                boat.position_y = height - 1;
            } else {
                boat.position_y -= 1;
            }
        },
        Some(Key::Down) => {
            boat.position_y += 1;
            if boat.position_y == height {
                boat.position_y = 1;
            }
        },
        Some(Key::Left) => {
            if boat.position_x <= 1 {
                boat.position_x = width - 1;
            } else {
                boat.position_x -= 1;
            }
        },
        Some(Key::Right) => {
            boat.position_x += 1;
            if boat.position_x == width {
                boat.position_x = 1;
            }
        },
        _ => {},
    }
    false
}

/// Every move of a boat that stands within the grid can be made.
pub proof fn law_within_is_reachable(boat: Boat, key: Option<Key>, width: u16, height: u16)
    requires
        boat.within(width, height),
    ensures
        reachable(boat, key, width, height),
{
}

/// The move takes the wrapping branch: it crosses an edge of the grid.
pub open spec fn wraps(boat: Boat, key: Key, width: u16, height: u16) -> bool {
    match key {
        Key::Up => boat.position_y <= 1,
        Key::Down => boat.position_y + 1 == height,
        Key::Left => boat.position_x <= 1,
        Key::Right => boat.position_x + 1 == width,
        _ => false,
    }
}

/// The boat after each key of `keys` in turn.
pub open spec fn after_keys(boat: Boat, keys: Seq<Key>, width: u16, height: u16) -> Boat
    decreases keys.len(),
{
    if keys.len() == 0 {
        boat
    } else {
        moved(after_keys(boat, keys.drop_last(), width, height), Some(keys.last()), width, height)
    }
}

/// `first` then `second`, `rounds` times over.
pub open spec fn back_and_forth(first: Key, second: Key, rounds: nat) -> Seq<Key>
    decreases rounds,
{
    if rounds == 0 {
        Seq::empty()
    } else {
        back_and_forth(first, second, (rounds - 1) as nat).push(first).push(second)
    }
}

/// A key pair that undoes itself away from the edges returns the boat to
/// where it started, however often the pair is repeated.
proof fn lemma_pairs_cancel(
    boat: Boat,
    first: Key,
    second: Key,
    width: u16,
    height: u16,
    rounds: nat,
)
    requires
        moved(moved(boat, Some(first), width, height), Some(second), width, height) == boat,
    ensures
        after_keys(boat, back_and_forth(first, second, rounds), width, height) == boat,
    decreases rounds,
{
    if rounds > 0 {
        let shorter = back_and_forth(first, second, (rounds - 1) as nat);
        let keys = back_and_forth(first, second, rounds);
        lemma_pairs_cancel(boat, first, second, width, height, (rounds - 1) as nat);
        assert(keys.drop_last() == shorter.push(first));
        assert(keys.drop_last().drop_last() == shorter);
        assert(after_keys(boat, keys.drop_last(), width, height) == moved(
            boat,
            Some(first),
            width,
            height,
        ));
    }
}

/// From a row of the grid that the step up does not wrap, up then down
/// returns the boat to where it was, and so does any number of such pairs:
/// an even number of moves in all.
pub proof fn law_up_down_returns(boat: Boat, width: u16, height: u16, rounds: nat)
    requires
        boat.within(width, height),
        !wraps(boat, Key::Up, width, height),
    ensures
        !wraps(moved(boat, Some(Key::Up), width, height), Key::Down, width, height),
        moved(moved(boat, Some(Key::Up), width, height), Some(Key::Down), width, height) == boat,
        after_keys(boat, back_and_forth(Key::Up, Key::Down, rounds), width, height) == boat,
{
    lemma_pairs_cancel(boat, Key::Up, Key::Down, width, height, rounds);
}

/// From a column of the grid that the step left does not wrap, left then
/// right returns the boat to where it was, and so does any number of such
/// pairs: an even number of moves in all.
pub proof fn law_left_right_returns(boat: Boat, width: u16, height: u16, rounds: nat)
    requires
        boat.within(width, height),
        !wraps(boat, Key::Left, width, height),
    ensures
        !wraps(moved(boat, Some(Key::Left), width, height), Key::Right, width, height),
        moved(moved(boat, Some(Key::Left), width, height), Some(Key::Right), width, height)
            == boat,
        after_keys(boat, back_and_forth(Key::Left, Key::Right, rounds), width, height) == boat,
{
    lemma_pairs_cancel(boat, Key::Left, Key::Right, width, height, rounds);
}

/// On a grid of at least two cells each way, a boat that stands within the
/// grid stands within it after any keys, and each of those moves can be made.
pub proof fn law_boat_stays_within(boat: Boat, keys: Seq<Key>, width: u16, height: u16)
    requires
        boat.within(width, height),
        width >= 2,
        height >= 2,
    ensures
        after_keys(boat, keys, width, height).within(width, height),
        forall|key: Option<Key>| #[trigger]
            reachable(after_keys(boat, keys, width, height), key, width, height),
    decreases keys.len(),
{
    if keys.len() > 0 {
        law_boat_stays_within(boat, keys.drop_last(), width, height);
        assert(reachable(
            after_keys(boat, keys.drop_last(), width, height),
            Some(keys.last()),
            width,
            height,
        ));
    }
}

} // verus!
