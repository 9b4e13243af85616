use vstd::prelude::*;

verus! {

/// The eight compass octants.
#[derive(Clone, Copy, Debug, PartialEq, Eq, Structural)]
pub enum Direction {
    North,
    NorthEast,
    East,
    SouthEast,
    South,
    SouthWest,
    West,
    NorthWest,
}

/// A heading angle in radians, held as the bit pattern of an IEEE-754
/// binary32 value.
#[derive(Clone, Copy, Debug, PartialEq, Eq, Structural)]
pub struct Heading(pub u32);

/// Why a heading could not be mapped to an octant.
#[derive(Clone, Copy, Debug, PartialEq, Eq, Structural)]
pub enum HeadingError {
    /// The heading is an infinity or a NaN.
    InvalidHeading,
}

/// Which label assignment maps the eight heading sectors to directions.
#[derive(Clone, Copy, Debug, PartialEq, Eq, Structural)]
pub enum Quantizer {
    /// Headings from the tilt-compensated pipeline.
    TiltCompensated,
    /// Headings from the level-device pipeline, labelled one octant further
    /// clockwise than the tilt-compensated ones.
    Flat,
}

/// The sign bit of a binary32 value.
pub const SIGN_BIT: u32 = 0x8000_0000;

/// Magnitude bits of the smallest non-finite binary32 value (an infinity).
pub const INFINITY_BITS: u32 = 0x7f80_0000;

/// Magnitude bits of `7π/8`, computed as `7 * PI / 8` in single precision.
pub const SEVEN_EIGHTHS_PI: u32 = 0x402f_ede0;

/// Magnitude bits of `5π/8`, computed as `5 * PI / 8` in single precision.
pub const FIVE_EIGHTHS_PI: u32 = 0x3ffb_53d2;

/// Magnitude bits of `3π/8`, computed as `3 * PI / 8` in single precision.
pub const THREE_EIGHTHS_PI: u32 = 0x3f96_cbe4;

/// Magnitude bits of `π/8`, computed as `PI / 8` in single precision.
pub const ONE_EIGHTH_PI: u32 = 0x3ec9_0fdb;

/// The bits of `h` without its sign.
pub open spec fn magnitude(h: Heading) -> int {
    h.0 as int % SIGN_BIT as int
}

/// `h` is neither an infinity nor a NaN.
pub open spec fn is_finite(h: Heading) -> bool {
    magnitude(h) < INFINITY_BITS
}

/// A key that orders finite binary32 values as their real values are ordered;
/// both zeros get the key zero.
pub open spec fn order_key(h: Heading) -> int {
    if h.0 >= SIGN_BIT {
        -magnitude(h)
    } else {
        magnitude(h)
    }
}

/// The sector of a finite heading with order key `k`: the number of the eight
/// boundaries `-7π/8, -5π/8, ..., 7π/8` that lie at or below it.
pub open spec fn sector(k: int) -> int {
    if k < -SEVEN_EIGHTHS_PI {
        0
    } else if k < -FIVE_EIGHTHS_PI {
        1
    } else if k < -THREE_EIGHTHS_PI {
        2
    } else if k < -ONE_EIGHTH_PI {
        3
    } else if k < ONE_EIGHTH_PI {
        4
    } else if k < THREE_EIGHTHS_PI {
        5
    } else if k < FIVE_EIGHTHS_PI {
        6
    } else if k < SEVEN_EIGHTHS_PI {
        7
    } else {
        8
    }
}

/// The label of each sector for tilt-compensated headings.
pub open spec fn tilt_label(s: int) -> Direction {
    if s == 1 {
        Direction::NorthWest
    } else if s == 2 {
        Direction::West
    } else if s == 3 {
        Direction::SouthWest
    } else if s == 4 {
        Direction::South
    } else if s == 5 {
        Direction::SouthEast
    } else if s == 6 {
        Direction::East
    } else if s == 7 {
        Direction::NorthEast
    } else {
        Direction::North
    }
}

/// The octant one step clockwise from `d`.
pub open spec fn clockwise(d: Direction) -> Direction {
    match d {
        Direction::North => Direction::NorthEast,
        Direction::NorthEast => Direction::East,
        Direction::East => Direction::SouthEast,
        Direction::SouthEast => Direction::South,
        Direction::South => Direction::SouthWest,
        Direction::SouthWest => Direction::West,
        Direction::West => Direction::NorthWest,
        Direction::NorthWest => Direction::North,
    }
}

/// The label of each sector under the given assignment.
pub open spec fn label(q: Quantizer, s: int) -> Direction {
    match q {
        Quantizer::TiltCompensated => tilt_label(s),
        Quantizer::Flat => clockwise(tilt_label(s)),
    }
}

/// What quantizing `h` under `q` gives.
pub open spec fn quantized(q: Quantizer, h: Heading) -> Result<Direction, HeadingError> {
    if is_finite(h) {
        Ok(label(q, sector(order_key(h))))
    } else {
        Err(HeadingError::InvalidHeading)
    }
}

/// The `i`-th sector boundary, as an order key, for `0 <= i < 8`.
pub open spec fn boundary(i: int) -> int {
    if i == 0 {
        -SEVEN_EIGHTHS_PI
    } else if i == 1 {
        -FIVE_EIGHTHS_PI
    } else if i == 2 {
        -THREE_EIGHTHS_PI
    } else if i == 3 {
        -ONE_EIGHTH_PI
    } else if i == 4 {
        ONE_EIGHTH_PI as int
    } else if i == 5 {
        THREE_EIGHTHS_PI as int
    } else if i == 6 {
        FIVE_EIGHTHS_PI as int
    } else {
        SEVEN_EIGHTHS_PI as int
    }
}

/// Every finite heading gets exactly one octant, under either assignment: the
/// boundaries increase strictly, the sector of a heading is the number of
/// boundaries at or below it, so the half-open intervals between consecutive
/// boundaries cover every heading once, and the two outermost intervals carry
/// the same label, joining across the half turn.
pub proof fn lemma_sectors_partition(q: Quantizer, h: Heading)
    requires
        is_finite(h),
    ensures
        quantized(q, h) == Ok::<Direction, HeadingError>(label(q, sector(order_key(h)))),
        0 <= sector(order_key(h)) <= 8,
        forall|i: int| 0 <= i < 8 ==> (boundary(i) <= order_key(h) <==> i < sector(order_key(h))),
        forall|i: int, j: int| 0 <= i < j < 8 ==> boundary(i) < boundary(j),
        label(q, 0) == label(q, 8),
{
}

impl Direction {
    /// The octant one step clockwise.
    pub fn clockwise(self) -> (r: Direction)
        ensures
            r == clockwise(self),
    {
        match self {
            Direction::North => Direction::NorthEast,
            Direction::NorthEast => Direction::East,
            Direction::East => Direction::SouthEast,
            Direction::SouthEast => Direction::South,
            Direction::South => Direction::SouthWest,
            Direction::SouthWest => Direction::West,
            Direction::West => Direction::NorthWest,
            Direction::NorthWest => Direction::North,
        }
    }
}

/// Maps a tilt-compensated heading to its octant; an infinite or NaN heading
/// is refused.
pub fn theta_to_direction(heading: Heading) -> (r: Result<Direction, HeadingError>)
    ensures
        r == quantized(Quantizer::TiltCompensated, heading),
        r is Err <==> !is_finite(heading),
{
    let mag: u32 = heading.0 % SIGN_BIT;
    if mag >= INFINITY_BITS {
        return Err(HeadingError::InvalidHeading);
    }
    let key: i64 = if heading.0 >= SIGN_BIT {
        -(mag as i64)
    } else {
        mag as i64
    };
    let d = if key < -(SEVEN_EIGHTHS_PI as i64) {
        Direction::North
    } else if key < -(FIVE_EIGHTHS_PI as i64) {
        Direction::NorthWest
    } else if key < -(THREE_EIGHTHS_PI as i64) {
        Direction::West
    } else if key < -(ONE_EIGHTH_PI as i64) {
        Direction::SouthWest
    } else if key < ONE_EIGHTH_PI as i64 {
        Direction::South
    } else if key < THREE_EIGHTHS_PI as i64 {
        Direction::SouthEast
    } else if key < FIVE_EIGHTHS_PI as i64 {
        Direction::East
    } else if key < SEVEN_EIGHTHS_PI as i64 {
        Direction::NorthEast
    } else {
        Direction::North
    };
    Ok(d)
}

/// Maps a heading to its octant under the chosen label assignment.
pub fn quantize(quantizer: Quantizer, heading: Heading) -> (r: Result<Direction, HeadingError>)
    ensures
        r == quantized(quantizer, heading),
{
    match theta_to_direction(heading) {
        Ok(d) => match quantizer {
            Quantizer::TiltCompensated => Ok(d),
            Quantizer::Flat => Ok(d.clockwise()),
        },
        Err(e) => Err(e),
    }
}

} // verus!
