use vstd::prelude::*;

verus! {

/// The edge of the 5x5 matrix along which the lit LED is moving.
#[derive(Clone, Copy, Debug, PartialEq, Eq, Structural)]
pub enum Side {
    Left,
    Down,
    Right,
    Up,
}

/// The lit LED of a roulette that runs round the border of a 5x5 matrix.
#[derive(Clone, Copy, Debug, PartialEq, Eq, Structural)]
pub struct State {
    pub direction: Side,
    pub position: u8,
}

/// The side that follows `s`, turning at a corner.
pub open spec fn next_side(s: Side) -> Side {
    match s {
        Side::Left => Side::Down,
        Side::Down => Side::Right,
        Side::Right => Side::Up,
        Side::Up => Side::Left,
    }
}

impl State {
    /// The position along the side is within the side's five LEDs.
    pub open spec fn wf(&self) -> bool {
        self.position <= 4
    }

    /// The state one step on: at the end of a side the roulette turns onto the
    /// next side and starts again from its first LED.
    pub open spec fn next(self) -> State {
        if self.position >= 4 {
            State { direction: next_side(self.direction), position: 1 }
        } else {
            State { direction: self.direction, position: (self.position + 1) as u8 }
        }
    }

    /// The row of the lit LED.
    pub open spec fn row(self) -> int {
        match self.direction {
            Side::Left => 0,
            Side::Down => self.position as int,
            Side::Right => 4,
            Side::Up => 4 - self.position,
        }
    }

    /// The column of the lit LED.
    pub open spec fn column(self) -> int {
        match self.direction {
            Side::Left => self.position as int,
            Side::Down => 4,
            Side::Right => 4 - self.position,
            Side::Up => 0,
        }
    }

    /// Moves the lit LED one step round the border.
    pub fn advance(&mut self)
        ensures
            *final(self) == old(self).next(),
            final(self).wf(),
    {
        if self.position >= 4 {
            match self.direction {
                Side::Left => {
                    self.direction = Side::Down;
                },
                Side::Down => {
                    self.direction = Side::Right;
                },
                Side::Right => {
                    self.direction = Side::Up;
                },
                Side::Up => {
                    self.direction = Side::Left;
                },
            }
            self.position = 0;
        }
        self.position += 1
    }

    /// The row of the lit LED.
    pub fn x(&self) -> (r: usize)
        requires
            self.wf(),
        ensures
            r == self.row(),
            r < 5,
    {
        match self.direction {
            Side::Left => 0,
            Side::Down => self.position as usize,
            Side::Right => 4,
            Side::Up => 4 - self.position as usize,
        }
    }

    /// The column of the lit LED.
    pub fn y(&self) -> (r: usize)
        requires
            self.wf(),
        ensures
            r == self.column(),
            r < 5,
    {
        match self.direction {
            Side::Left => self.position as usize,
            Side::Down => 4,
            Side::Right => 4 - self.position as usize,
            Side::Up => 0,
        }
    }
}

impl Default for State {
    /// The roulette at the top-left corner, about to run along the left side.
    fn default() -> (r: State)
        ensures
            r == (State { direction: Side::Left, position: 0 }),
    {
        State { direction: Side::Left, position: 0 }
    }
}

} // verus!
