//! Movement patterns of the six kinds of piece and the en passant condition.

use vstd::prelude::*;
use vstd::math::abs;
use crate::board::Board;
use crate::coord::{sign, Coord};
use crate::piece::{Piece, PieceKind};
use crate::position::{king_pattern, knight_pattern};

verus! {

/// The distance between two components.
pub(crate) fn span(a: i8, b: i8) -> (d: i16)
    ensures
        d == abs(a - b),
{
    let x: i16 = a as i16 - b as i16;
    if x < 0 {
        -x
    } else {
        x
    }
}

/// The sign of `b - a` as a step.
fn unit(a: i8, b: i8) -> (d: i8)
    ensures
        d == sign(b - a),
{
    if b > a {
        1
    } else if b < a {
        -1
    } else {
        0
    }
}

impl Board {
    /// The squares strictly between two squares of one row, column or
    /// diagonal, walking from `start` toward `end`.
    pub fn path_between(&self, start: &Coord, end: &Coord) -> (path: Vec<Coord>)
        requires
            start.aligned(*end),
        ensures
            path@ == start.between(*end),
    {
        let d = Coord { row: unit(start.row, end.row), col: unit(start.col, end.col) };
        let mut pos = start.offset(&d);
        let mut path: Vec<Coord> = Vec::new();
        let ghost n = start.distance(*end);
        while pos != *end
            invariant
                start.aligned(*end),
                n == start.distance(*end),
                d.row == sign(end.row - start.row),
                d.col == sign(end.col - start.col),
                n == 0 ==> pos == *end && path.len() == 0,
                n > 0 ==> path.len() < n,
                pos == start.step_toward(*end, path.len() + 1),
                forall|k: int| 0 <= k < path.len() ==> path[k] == start.step_toward(*end, k + 1),
            decreases n - path.len(),
        {
            path.push(pos);
            pos = pos.offset(&d);
        }
        assert(n > 0 ==> path.len() + 1 == n);
        assert(path@ =~= start.between(*end));
        path
    }

    /// Whether every square strictly between `start` and `end` is empty.
    pub fn path_is_clear(&self, start: &Coord, end: &Coord) -> (b: bool)
        requires
            self.wf(),
            start.aligned(*end),
        ensures
            b == self@.path_clear(*start, *end),
    {
        let path = self.path_between(start, end);
        let mut i: usize = 0;
        while i < path.len()
            invariant
                self.wf(),
                path@ == start.between(*end),
                i <= path.len(),
                forall|k: int| 0 <= k < i ==> self@.piece_at(#[trigger] path[k]) is None,
            decreases path.len() - i,
        {
            if self.get(&path[i]).is_some() {
                return false;
            }
            i += 1;
        }
        true
    }

    /// Whether `start_piece`, taken to be a pawn on `start`, meets the en
    /// passant condition for a move to `end`.
    pub fn is_en_passant(&self, start_piece: &Piece, start: &Coord, end: &Coord) -> (b: bool)
        requires
            self.wf(),
        ensures
            b == self@.en_passant(*start_piece, *start, *end),
    {
        let forward: i16 = start_piece.color.forward() as i16;
        if end.row as i16 != start.row as i16 + forward || span(end.col, start.col) != 1 {
            return false;
        }
        let n: usize = self.history_len();
        if n == 0 {
            return false;
        }
        let (prev_start, prev_end) = self.logged_move(n - 1);
        prev_end.row == start.row && prev_end.col == end.col && prev_start.col == prev_end.col
            && prev_end.row as i16 == prev_start.row as i16 - forward * 2 && match self.get(
            &prev_end,
        ) {
            Some(prev_piece) => prev_piece.kind == PieceKind::Pawn && prev_piece.color
                != start_piece.color,
            None => false,
        }
    }

    /// Whether `start_piece`, taken to be a pawn on `start`, may go to `end`
    /// by an ordinary pawn move or capture.
    pub fn follows_pawn_move_pattern(&self, start_piece: &Piece, start: &Coord, end: &Coord) -> (b:
        bool)
        requires
            self.wf(),
        ensures
            b == self@.pawn_pattern(*start_piece, *start, *end),
    {
        let forward: i16 = start_piece.color.forward() as i16;
        let from: i16 = start.row as i16;
        let to: i16 = end.row as i16;
        if let Some(end_piece) = self.get(end) {
            end_piece.color != start_piece.color && to == from + forward && span(
                end.col,
                start.col,
            ) == 1
        } else if start.col != end.col {
            false
        } else if to == from + forward {
            true
        } else if to == from + forward * 2 && !start_piece.has_moved {
            proof {
                assert(start.between(*end).len() == 1);
                assert(start.between(*end)[0] == Coord::at(start.row + forward, start.col as int));
            }
            self.path_is_clear(start, end)
        } else {
            false
        }
    }

    /// Whether `end` is a knight's jump away from `start`.
    pub fn follows_knight_move_pattern(&self, start: &Coord, end: &Coord) -> (b: bool)
        ensures
            b == knight_pattern(*start, *end),
    {
        let d_row = span(start.row, end.row);
        let d_col = span(start.col, end.col);
        d_row == 1 && d_col == 2 || d_row == 2 && d_col == 1
    }

    /// Whether `end` lies on a diagonal through `start`, at least one step
    /// away, with every square between them empty.
    pub fn follows_bishop_move_pattern(&self, start: &Coord, end: &Coord) -> (b: bool)
        requires
            self.wf(),
        ensures
            b == self@.bishop_pattern(*start, *end),
    {
        span(end.row, start.row) == span(end.col, start.col) && end.row != start.row
            && self.path_is_clear(start, end)
    }

    /// Whether `end` shares its row or its column with `start`, with every
    /// square between them empty.
    pub fn follows_rook_move_pattern(&self, start: &Coord, end: &Coord) -> (b: bool)
        requires
            self.wf(),
        ensures
            b == self@.rook_pattern(*start, *end),
    {
        (end.row == start.row || end.col == start.col) && self.path_is_clear(start, end)
    }

    /// Whether a bishop or a rook could go from `start` to `end`.
    pub fn follows_queen_move_pattern(&self, start: &Coord, end: &Coord) -> (b: bool)
        requires
            self.wf(),
        ensures
            b == self@.queen_pattern(*start, *end),
    {
        self.follows_bishop_move_pattern(start, end) || self.follows_rook_move_pattern(start, end)
    }

    /// Whether `end` is one of the eight squares next to `start`.
    pub fn follows_king_move_pattern(&self, start: &Coord, end: &Coord) -> (b: bool)
        ensures
            b == king_pattern(*start, *end),
    {
        let d_row = span(end.row, start.row);
        let d_col = span(end.col, start.col);
        d_row <= 1 && d_col <= 1 && !(d_row == 0 && d_col == 0)
    }
}

} // verus!
