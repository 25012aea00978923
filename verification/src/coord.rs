//! Square addresses and the geometry of straight lines between them.

use vstd::prelude::*;
use vstd::math::abs;

verus! {

/// The address of a square: `row` and `col` both run from 0 to 7 on the
/// board. Values outside that range are representable and name no square.
#[derive(Clone, Copy, Debug, PartialEq, Eq, Structural)]
pub struct Coord {
    pub row: i8,
    pub col: i8,
}

/// The sign of `x`: -1, 0 or 1.
pub open spec fn sign(x: int) -> int {
    if x > 0 {
        1
    } else if x < 0 {
        -1
    } else {
        0
    }
}

/// `x` moved `k` units toward `target`; `x` itself when they are equal.
pub open spec fn toward(x: int, target: int, k: int) -> int {
    if target > x {
        x + k
    } else if target < x {
        x - k
    } else {
        x
    }
}

impl Coord {
    /// The coordinate with the given components, where they fit.
    pub open spec fn at(row: int, col: int) -> Coord {
        Coord { row: row as i8, col: col as i8 }
    }

    /// The `i`-th square in row-major order.
    pub open spec fn nth(i: int) -> Coord {
        Coord::at(i / 8, i % 8)
    }

    /// Whether this coordinate names one of the 64 squares.
    pub open spec fn on_board(self) -> bool {
        0 <= self.row < 8 && 0 <= self.col < 8
    }

    /// Position of the square in row-major order, for a square on the board.
    pub open spec fn index(self) -> int {
        self.row * 8 + self.col
    }

    /// Row-major order: rows first, then columns.
    pub open spec fn precedes(self, other: Coord) -> bool {
        self.row < other.row || (self.row == other.row && self.col < other.col)
    }

    /// Whether `other` shares a row, a column or a diagonal with `self`.
    pub open spec fn aligned(self, other: Coord) -> bool {
        ||| other.row == self.row
        ||| other.col == self.col
        ||| abs(other.row - self.row) == abs(other.col - self.col)
    }

    /// The number of unit steps from `self` to `other` along their common
    /// line.
    pub open spec fn distance(self, other: Coord) -> int {
        vstd::math::max(abs(other.row - self.row) as int, abs(other.col - self.col) as int)
    }

    /// The square `k` unit steps from `self` in the direction of `other`,
    /// each component moving by the sign of its delta.
    pub open spec fn step_toward(self, other: Coord, k: int) -> Coord {
        Coord::at(
            toward(self.row as int, other.row as int, k),
            toward(self.col as int, other.col as int, k),
        )
    }

    /// The squares strictly between `self` and `other` on their common row,
    /// column or diagonal, nearest to `self` first.
    pub open spec fn between(self, other: Coord) -> Seq<Coord> {
        Seq::new(
            vstd::math::clip(self.distance(other) - 1),
            |k: int| self.step_toward(other, k + 1),
        )
    }

    /// Adds the components of two coordinates. The result need not be on the
    /// board.
    pub fn offset(&self, other: &Coord) -> (c: Coord)
        requires
            i8::MIN <= self.row + other.row <= i8::MAX,
            i8::MIN <= self.col + other.col <= i8::MAX,
        ensures
            c.row == self.row + other.row,
            c.col == self.col + other.col,
    {
        Coord { row: self.row + other.row, col: self.col + other.col }
    }
}

} // verus!
