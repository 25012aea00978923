//! Threat detection, castling, legality short of check, and the king's
//! whereabouts.

use vstd::prelude::*;
use crate::board::Board;
use crate::coord::Coord;
use crate::patterns::span;
use crate::piece::{Color, Piece, PieceKind};

verus! {

impl Board {
    /// The piece that `side` would move from `start` to `end`, if the squares
    /// allow it.
    fn mover(&self, side: &Color, start: &Coord, end: &Coord) -> (m: Option<Piece>)
        requires
            self.wf(),
        ensures
            m == self@.mover(*side, *start, *end),
    {
        if !self.contains(end) {
            return None;
        }
        let start_piece = match self.get(start) {
            Some(piece) => piece,
            None => return None,
        };
        if start_piece.color != *side {
            return None;
        }
        if let Some(end_piece) = self.get(end) {
            if end_piece.color == start_piece.color {
                return None;
            }
        }
        Some(start_piece)
    }

    /// Whether going from `start` to `end` fits the pattern of `piece`.
    fn follows_move_pattern(&self, piece: &Piece, start: &Coord, end: &Coord) -> (b: bool)
        requires
            self.wf(),
        ensures
            b == self@.pattern(*piece, *start, *end),
    {
        match piece.kind {
            PieceKind::Pawn => {
                self.follows_pawn_move_pattern(piece, start, end) || self.is_en_passant(
                    piece,
                    start,
                    end,
                )
            },
            PieceKind::Knight => self.follows_knight_move_pattern(start, end),
            PieceKind::Bishop => self.follows_bishop_move_pattern(start, end),
            PieceKind::Rook => self.follows_rook_move_pattern(start, end),
            PieceKind::Queen => self.follows_queen_move_pattern(start, end),
            PieceKind::King => self.follows_king_move_pattern(start, end),
        }
    }

    /// Whether the piece of `side` on `start` reaches `end` by its pattern,
    /// castling left aside.
    pub fn reaches(&self, side: &Color, start: &Coord, end: &Coord) -> (b: bool)
        requires
            self.wf(),
        ensures
            b == self@.reaches(*side, *start, *end),
    {
        match self.mover(side, start, end) {
            Some(piece) => self.follows_move_pattern(&piece, start, end),
            None => false,
        }
    }

    /// Whether some piece of the opponent of `side` reaches `pos`.
    pub fn is_endangered(&self, side: &Color, pos: &Coord) -> (b: bool)
        requires
            self.wf(),
        ensures
            b == self@.endangered(*side, *pos),
    {
        let enemy = side.other();
        let mut row: i8 = 0;
        while row < 8
            invariant
                self.wf(),
                enemy == side.opponent(),
                0 <= row <= 8,
                forall|c: Coord| c.on_board() && c.row < row ==> !self@.reaches(enemy, c, *pos),
            decreases 8 - row,
        {
            let mut col: i8 = 0;
            while col < 8
                invariant
                    self.wf(),
                    enemy == side.opponent(),
                    0 <= row < 8,
                    0 <= col <= 8,
                    forall|c: Coord| c.on_board() && c.row < row ==> !self@.reaches(enemy, c, *pos),
                    forall|c: Coord|
                        c.on_board() && c.row == row && c.col < col ==> !self@.reaches(
                            enemy,
                            c,
                            *pos,
                        ),
                decreases 8 - col,
            {
                if self.reaches(&enemy, &Coord { row, col }, pos) {
                    return true;
                }
                col += 1;
            }
            row += 1;
        }
        false
    }

    /// Whether `piece`, taken to be a king on `start`, may castle to `end`.
    pub fn is_castle(&self, piece: &Piece, start: &Coord, end: &Coord) -> (b: bool)
        requires
            self.wf(),
        ensures
            b == self@.castle(*piece, *start, *end),
    {
        if piece.has_moved || end.row != start.row || span(end.col, start.col) != 2 {
            return false;
        }
        let toward_high: bool = end.col > start.col;
        let rook_pos = Coord { row: start.row, col: if toward_high { 7 } else { 0 } };
        let middle = Coord {
            row: start.row,
            col: if toward_high { start.col + 1 } else { start.col - 1 },
        };
        match self.get(&rook_pos) {
            Some(rook) => {
                if rook.kind != PieceKind::Rook || rook.color != piece.color || rook.has_moved {
                    return false;
                }
            },
            None => {
                return false;
            },
        }
        let side = piece.color;
        !self.is_endangered(&side, start) && !self.is_endangered(&side, &rook_pos)
            && !self.is_endangered(&side, &middle) && !self.is_endangered(&side, end)
    }

    /// Whether `side` may move from `start` to `end`, the safety of its own
    /// king left aside.
    pub fn is_legal_move_no_check(&self, side: &Color, start: &Coord, end: &Coord) -> (b: bool)
        requires
            self.wf(),
        ensures
            b == self@.pseudo_legal(*side, *start, *end),
    {
        match self.mover(side, start, end) {
            Some(piece) => {
                self.follows_move_pattern(&piece, start, end) || (piece.kind == PieceKind::King
                    && self.is_castle(&piece, start, end))
            },
            None => false,
        }
    }

    /// The first square in row-major order that holds a king of `side`, if
    /// there is one.
    fn locate_king(&self, side: &Color) -> (found: Option<Coord>)
        requires
            self.wf(),
        ensures
            match found {
                Some(k) => self@.is_king_square(*side, k),
                None => !self@.has_king(*side),
            },
    {
        let mut row: i8 = 0;
        while row < 8
            invariant
                self.wf(),
                0 <= row <= 8,
                forall|c: Coord| c.on_board() && c.row < row ==> !self@.holds_king(*side, c),
            decreases 8 - row,
        {
            let mut col: i8 = 0;
            while col < 8
                invariant
                    self.wf(),
                    0 <= row < 8,
                    0 <= col <= 8,
                    forall|c: Coord| c.on_board() && c.row < row ==> !self@.holds_king(*side, c),
                    forall|c: Coord|
                        c.on_board() && c.row == row && c.col < col ==> !self@.holds_king(*side, c),
                decreases 8 - col,
            {
                if let Some(piece) = self.get(&Coord { row, col }) {
                    if piece.kind == PieceKind::King && piece.color == *side {
                        return Some(Coord { row, col });
                    }
                }
                col += 1;
            }
            row += 1;
        }
        None
    }

    /// Whether `side` has a king on the board.
    pub fn has_king(&self, side: &Color) -> (b: bool)
        requires
            self.wf(),
        ensures
            b == self@.has_king(*side),
    {
        self.locate_king(side).is_some()
    }

    /// The square of the king of `side`.
    pub fn find_king(&self, side: &Color) -> (k: Coord)
        requires
            self.wf(),
            self@.has_king(*side),
        ensures
            self@.is_king_square(*side, k),
            k == self@.king_square(*side),
    {
        match self.locate_king(side) {
            Some(k) => {
                proof {
                    self@.king_square_is_unique(*side, k, self@.king_square(*side));
                }
                k
            },
            None => vstd::pervasive::unreached(),
        }
    }

    /// Whether the king of `side` is within the opponent's reach.
    pub fn king_is_in_check(&self, side: &Color) -> (b: bool)
        requires
            self.wf(),
            self@.has_king(*side),
        ensures
            b == self@.in_check(*side),
    {
        let king_pos = self.find_king(side);
        self.is_endangered(side, &king_pos)
    }
}

} // verus!
