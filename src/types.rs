use vstd::prelude::*;

verus! {

/// A cell of the grid. Coordinates are non-negative; `x` grows to the right
/// and `y` grows upwards.
#[derive(Clone, Copy, Debug, PartialEq, Eq, Structural)]
pub struct Coord {
    pub x: u32,
    pub y: u32,
}

/// Absolute difference of two integers.
pub open spec fn abs_diff(a: int, b: int) -> int {
    if a >= b {
        a - b
    } else {
        b - a
    }
}

/// Manhattan (L1) distance between a grid point and a cell.
pub open spec fn manhattan(p: (int, int), c: Coord) -> int {
    abs_diff(p.0, c.x as int) + abs_diff(p.1, c.y as int)
}

impl Coord {
    /// The cell as a point of the integer plane.
    pub open spec fn point(self) -> (int, int) {
        (self.x as int, self.y as int)
    }

    pub fn new(x: u32, y: u32) -> (r: Coord)
        ensures
            r.x == x,
            r.y == y,
    {
        Coord { x, y }
    }

    /// Manhattan distance to `other`.
    pub fn dist(&self, other: &Coord) -> (r: u64)
        ensures
            r == manhattan(self.point(), *other),
    {
        let dx: u64 = if self.x >= other.x {
            (self.x - other.x) as u64
        } else {
            (other.x - self.x) as u64
        };
        let dy: u64 = if self.y >= other.y {
            (self.y - other.y) as u64
        } else {
            (other.y - self.y) as u64
        };
        dx + dy
    }
}

/// One of the four directions a snake can move in.
#[derive(Clone, Copy, Debug, PartialEq, Eq, Structural)]
pub enum Move {
    Up,
    Down,
    Left,
    Right,
}

impl Move {
    /// Position of the move in the evaluation order up, down, left, right;
    /// ties between equally good moves go to the earlier one.
    pub open spec fn rank(self) -> int {
        match self {
            Move::Up => 0,
            Move::Down => 1,
            Move::Left => 2,
            Move::Right => 3,
        }
    }

    /// The name under which the move is sent to the game server.
    pub open spec fn spec_name(self) -> Seq<char> {
        match self {
            Move::Up => "up"@,
            Move::Down => "down"@,
            Move::Left => "left"@,
            Move::Right => "right"@,
        }
    }

    /// The move with the given rank.
    pub fn from_rank(k: usize) -> (r: Move)
        requires
            k < 4,
        ensures
            r.rank() == k,
    {
        if k == 0 {
            Move::Up
        } else if k == 1 {
            Move::Down
        } else if k == 2 {
            Move::Left
        } else {
            Move::Right
        }
    }

    pub fn as_str(&self) -> (r: &'static str)
        ensures
            r@ == self.spec_name(),
    {
        match self {
            Move::Up => "up",
            Move::Down => "down",
            Move::Left => "left",
            Move::Right => "right",
        }
    }

    /// The cell one step from `head` in this direction, as a point of the
    /// integer plane (it may lie off the board, or below zero).
    pub open spec fn dest(self, head: Coord) -> (int, int) {
        match self {
            Move::Up => (head.x as int, head.y + 1),
            Move::Down => (head.x as int, head.y - 1),
            Move::Left => (head.x - 1, head.y as int),
            Move::Right => (head.x + 1, head.y as int),
        }
    }

    /// The cell one step from `head` in this direction, or `None` where that
    /// cell has a coordinate below zero or beyond `u32::MAX`: such a cell
    /// lies off every board.
    pub fn step(&self, head: &Coord) -> (r: Option<Coord>)
        ensures
            r matches Some(c) ==> c.point() == self.dest(*head),
            r is None <==> !(0 <= self.dest(*head).0 <= u32::MAX && 0 <= self.dest(*head).1
                <= u32::MAX),
    {
        match self {
            Move::Up => if head.y < u32::MAX {
                Some(Coord::new(head.x, head.y + 1))
            } else {
                None
            },
            Move::Down => if head.y > 0 {
                Some(Coord::new(head.x, head.y - 1))
            } else {
                None
            },
            Move::Left => if head.x > 0 {
                Some(Coord::new(head.x - 1, head.y))
            } else {
                None
            },
            Move::Right => if head.x < u32::MAX {
                Some(Coord::new(head.x + 1, head.y))
            } else {
                None
            },
        }
    }
}

/// A snake: its body runs from the head (first) to the tail (last).
#[derive(Clone, Debug)]
pub struct Battlesnake {
    pub id: String,
    pub name: String,
    pub health: u32,
    pub body: Vec<Coord>,
    pub head: Coord,
    pub length: u32,
}

/// The board of one turn.
#[derive(Clone, Debug)]
pub struct Board {
    pub width: u32,
    pub height: u32,
    pub food: Vec<Coord>,
    pub snakes: Vec<Battlesnake>,
    pub hazards: Vec<Coord>,
}

/// The game a turn belongs to.
#[derive(Clone, Debug)]
pub struct Game {
    pub id: String,
    pub timeout: u32,
}

/// The snake's appearance, handed in by the host rather than kept globally.
#[derive(Clone, Debug)]
pub struct AppConfig {
    pub color: String,
    pub head: String,
    pub tail: String,
}

} // verus!
