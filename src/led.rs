use vstd::prelude::*;

use crate::heading::Direction;

verus! {

/// A 5x5 LED frame: rows top to bottom, columns left to right, 1 for a lit LED.
pub type LedFrame = [[u8; 5]; 5];

/// The arrow glyph shown for each octant, row by row.
pub open spec fn glyph(d: Direction) -> Seq<Seq<u8>> {
    match d {
        Direction::North => seq![
            seq![0u8, 0, 1, 0, 0],
            seq![0u8, 1, 1, 1, 0],
            seq![1u8, 0, 1, 0, 1],
            seq![0u8, 0, 1, 0, 0],
            seq![0u8, 0, 1, 0, 0],
        ],
        Direction::NorthEast => seq![
            seq![1u8, 1, 1, 0, 0],
            seq![1u8, 1, 0, 0, 0],
            seq![1u8, 0, 1, 0, 0],
            seq![0u8, 0, 0, 1, 0],
            seq![0u8, 0, 0, 0, 1],
        ],
        Direction::East => seq![
            seq![0u8, 0, 1, 0, 0],
            seq![0u8, 1, 0, 0, 0],
            seq![1u8, 1, 1, 1, 1],
            seq![0u8, 1, 0, 0, 0],
            seq![0u8, 0, 1, 0, 0],
        ],
        Direction::SouthEast => seq![
            seq![0u8, 0, 0, 0, 1],
            seq![0u8, 0, 0, 1, 0],
            seq![1u8, 0, 1, 0, 0],
            seq![1u8, 1, 0, 0, 0],
            seq![1u8, 1, 1, 0, 0],
        ],
        Direction::South => seq![
            seq![0u8, 0, 1, 0, 0],
            seq![0u8, 0, 1, 0, 0],
            seq![1u8, 0, 1, 0, 1],
            seq![0u8, 1, 1, 1, 0],
            seq![0u8, 0, 1, 0, 0],
        ],
        Direction::SouthWest => seq![
            seq![1u8, 0, 0, 0, 0],
            seq![0u8, 1, 0, 0, 0],
            seq![0u8, 0, 1, 0, 1],
            seq![0u8, 0, 0, 1, 1],
            seq![0u8, 0, 1, 1, 1],
        ],
        Direction::West => seq![
            seq![0u8, 0, 1, 0, 0],
            seq![0u8, 0, 0, 1, 0],
            seq![1u8, 1, 1, 1, 1],
            seq![0u8, 0, 0, 1, 0],
            seq![0u8, 0, 1, 0, 0],
        ],
        Direction::NorthWest => seq![
            seq![0u8, 0, 1, 1, 1],
            seq![0u8, 0, 0, 1, 1],
            seq![0u8, 0, 1, 0, 1],
            seq![0u8, 1, 0, 0, 0],
            seq![1u8, 0, 0, 0, 0],
        ],
    }
}

/// `frame` shows the rows of `rows`.
pub open spec fn shows(frame: LedFrame, rows: Seq<Seq<u8>>) -> bool {
    rows.len() == 5 && forall|i: int| 0 <= i < 5 ==> (#[trigger] frame[i])@ == rows[i]
}

/// The LED frame that shows the arrow for `direction`.
pub fn direction_to_led(direction: Direction) -> (r: LedFrame)
    ensures
        shows(r, glyph(direction)),
{
    let frame: LedFrame = match direction {
        Direction::North => [
            [0, 0, 1, 0, 0],
            [0, 1, 1, 1, 0],
            [1, 0, 1, 0, 1],
            [0, 0, 1, 0, 0],
            [0, 0, 1, 0, 0],
        ],
        Direction::NorthEast => [
            [1, 1, 1, 0, 0],
            [1, 1, 0, 0, 0],
            [1, 0, 1, 0, 0],
            [0, 0, 0, 1, 0],
            [0, 0, 0, 0, 1],
        ],
        Direction::East => [
            [0, 0, 1, 0, 0],
            [0, 1, 0, 0, 0],
            [1, 1, 1, 1, 1],
            [0, 1, 0, 0, 0],
            [0, 0, 1, 0, 0],
        ],
        Direction::SouthEast => [
            [0, 0, 0, 0, 1],
            [0, 0, 0, 1, 0],
            [1, 0, 1, 0, 0],
            [1, 1, 0, 0, 0],
            [1, 1, 1, 0, 0],
        ],
        Direction::South => [
            [0, 0, 1, 0, 0],
            [0, 0, 1, 0, 0],
            [1, 0, 1, 0, 1],
            [0, 1, 1, 1, 0],
            [0, 0, 1, 0, 0],
        ],
        Direction::SouthWest => [
            [1, 0, 0, 0, 0],
            [0, 1, 0, 0, 0],
            [0, 0, 1, 0, 1],
            [0, 0, 0, 1, 1],
            [0, 0, 1, 1, 1],
        ],
        Direction::West => [
            [0, 0, 1, 0, 0],
            [0, 0, 0, 1, 0],
            [1, 1, 1, 1, 1],
            [0, 0, 0, 1, 0],
            [0, 0, 1, 0, 0],
        ],
        Direction::NorthWest => [
            [0, 0, 1, 1, 1],
            [0, 0, 0, 1, 1],
            [0, 0, 1, 0, 1],
            [0, 1, 0, 0, 0],
            [1, 0, 0, 0, 0],
        ],
    };
    frame
}

} // verus!
