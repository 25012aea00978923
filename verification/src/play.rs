//! Applying moves, taking them back, and full legality.

use vstd::prelude::*;
use crate::board::Board;
use crate::coord::Coord;
use crate::laws::mover_keeps_its_king;
use crate::piece::{Color, Piece, PieceKind};
use crate::position::{Position, Status};

verus! {

impl Board {
    /// Moves the piece on `start` to `end` without asking whether the move is
    /// legal, with the side effects of en passant, promotion and castling, and
    /// logs the move. Does nothing when `start` is empty.
    pub fn make_move(&mut self, start: &Coord, end: &Coord)
        requires
            old(self).wf(),
            old(self)@.admits(*start, *end),
        ensures
            final(self).wf(),
            final(self)@ == old(self)@.after_move(*start, *end),
    {
        if let Some(piece) = self.get(start) {
            let mut arrived = Piece::new(piece.kind, piece.color, true);
            match piece.kind {
                PieceKind::Pawn => {
                    if self.is_en_passant(&piece, start, end) {
                        self.set(&Coord { row: start.row, col: end.col }, None);
                    }
                    if end.row == 7 || end.row == 0 {
                        arrived = Piece::new(PieceKind::Queen, piece.color, true);
                    }
                },
                PieceKind::King => {
                    if end.col - start.col > 1 {
                        self.set(
                            &Coord { row: start.row, col: end.col - 1 },
                            Some(Piece::new(PieceKind::Rook, piece.color, true)),
                        );
                        self.set(&Coord { row: start.row, col: 7 }, None);
                    } else if end.col - start.col < -1 {
                        self.set(
                            &Coord { row: start.row, col: end.col + 1 },
                            Some(Piece::new(PieceKind::Rook, piece.color, true)),
                        );
                        self.set(&Coord { row: start.row, col: 0 }, None);
                    }
                },
                _ => {},
            }
            self.set(end, Some(arrived));
            self.set(start, None);
            self.log(*start, *end);
            assert(self@.squares == old(self)@.after_move(*start, *end).squares);
            assert(self@.history =~= old(self)@.after_move(*start, *end).history);
        }
    }

    /// Makes the given moves in order.
    pub fn make_moves(&mut self, moves: &[(Coord, Coord)])
        requires
            old(self).wf(),
            old(self)@.admits_all(moves@),
        ensures
            final(self).wf(),
            final(self)@ == old(self)@.after_moves(moves@),
    {
        let mut i: usize = 0;
        while i < moves.len()
            invariant
                i <= moves.len(),
                self.wf(),
                old(self)@.admits_all(moves@),
                self@ == old(self)@.after_moves(moves@.take(i as int)),
            decreases moves.len() - i,
        {
            let (start, end) = moves[i];
            proof {
                assert(moves@.take(i + 1).drop_last() =~= moves@.take(i as int));
            }
            self.make_move(&start, &end);
            i += 1;
        }
        assert(moves@.take(i as int) =~= moves@);
    }

    /// Takes back the latest move: the board becomes what the starting
    /// position turns into when all logged moves but the last are made again.
    pub fn undo_move(&mut self)
        requires
            old(self).wf(),
            old(self)@.history.len() > 0,
        ensures
            final(self).wf(),
            final(self)@ == Position::replay(old(self)@.history.drop_last()),
    {
        let mut board = Board::new();
        let n: usize = self.history_len();
        let moves = self.logged_prefix(n - 1);
        proof {
            assert(moves@ =~= self@.history.drop_last());
            assert forall|i: int| 0 <= i < moves@.len() implies board@.after_moves(
                #[trigger] moves@.take(i),
            ).admits(moves@[i].0, moves@[i].1) by {
                assert(moves@[i] == self@.history[i]);
            }
        }
        board.make_moves(moves);
        *self = board;
    }

    /// Whether `side` may move from `start` to `end`: the move is legal short
    /// of check, and once it is made on a copy of the board the king of
    /// `side` is not in check there.
    pub fn is_legal_move(&self, side: &Color, start: &Coord, end: &Coord) -> (b: bool)
        requires
            self.wf(),
            self@.has_king(*side),
        ensures
            b == self@.legal(*side, *start, *end),
            b ==> self@.after_move(*start, *end).has_king(*side),
    {
        if !self.is_legal_move_no_check(side, start, end) {
            return false;
        }
        proof {
            mover_keeps_its_king(self@, *side, *start, *end);
        }
        let mut check_board = self.clone();
        check_board.make_move(start, end);
        !check_board.king_is_in_check(side)
    }

    /// The squares to which `side` may legally move from `start`, in
    /// row-major order.
    pub fn get_legal_moves(&self, side: &Color, start: &Coord) -> (moves: Vec<Coord>)
        requires
            self.wf(),
            self@.has_king(*side),
        ensures
            forall|e: Coord| moves@.contains(e) <==> self@.legal(*side, *start, e),
            forall|i: int, j: int| 0 <= i < j < moves.len() ==> moves[i].precedes(moves[j]),
    {
        let mut legal_moves: Vec<Coord> = Vec::new();
        let mut row: i8 = 0;
        while row < 8
            invariant
                self.wf(),
                self@.has_king(*side),
                0 <= row <= 8,
                forall|e: Coord| #[trigger]
                    legal_moves@.contains(e) ==> e.on_board() && e.row < row && self@.legal(
                        *side,
                        *start,
                        e,
                    ),
                forall|e: Coord|
                    e.on_board() && e.row < row && #[trigger] self@.legal(*side, *start, e)
                        ==> legal_moves@.contains(e),
                forall|i: int, j: int|
                    0 <= i < j < legal_moves.len() ==> legal_moves[i].precedes(legal_moves[j]),
            decreases 8 - row,
        {
            let mut col: i8 = 0;
            while col < 8
                invariant
                    self.wf(),
                    self@.has_king(*side),
                    0 <= row < 8,
                    0 <= col <= 8,
                    forall|e: Coord| #[trigger]
                        legal_moves@.contains(e) ==> e.on_board() && (e.row < row || (e.row == row
                            && e.col < col)) && self@.legal(*side, *start, e),
                    forall|e: Coord|
                        e.on_board() && (e.row < row || (e.row == row && e.col < col))
                            && #[trigger] self@.legal(*side, *start, e) ==> legal_moves@.contains(e),
                    forall|i: int, j: int|
                        0 <= i < j < legal_moves.len() ==> legal_moves[i].precedes(legal_moves[j]),
                decreases 8 - col,
            {
                let end = Coord { row, col };
                if self.is_legal_move(side, start, &end) {
                    let ghost before = legal_moves@;
                    legal_moves.push(end);
                    proof {
                        assert(legal_moves@.last() == end);
                        assert forall|e: Coord| #[trigger]
                            legal_moves@.contains(e) implies before.contains(e) || e == end by {
                            let i = choose|i: int| 0 <= i < legal_moves.len() && legal_moves[i] == e;
                            if i < before.len() {
                                assert(before[i] == e);
                            }
                        }
                        assert forall|e: Coord| #[trigger]
                            before.contains(e) implies legal_moves@.contains(e) by {
                            let i = choose|i: int| 0 <= i < before.len() && before[i] == e;
                            assert(legal_moves@[i] == e);
                        }
                        assert forall|i: int, j: int|
                            0 <= i < j < legal_moves.len() implies legal_moves[i].precedes(
                            legal_moves[j],
                        ) by {
                            assert(legal_moves[i] == before[i]);
                            if j == before.len() {
                                assert(before.contains(before[i]));
                                assert(before[i].precedes(end));
                            } else {
                                assert(legal_moves[j] == before[j]);
                                assert(before[i].precedes(before[j]));
                            }
                        }
                    }
                }
                col += 1;
            }
            row += 1;
        }
        legal_moves
    }

    /// Whether `side` has a legal move. The scan tests every move of `side`
    /// that is legal short of check, until it finds a legal one.
    pub fn has_legal_moves(&self, side: &Color) -> (b: bool)
        requires
            self.wf(),
            self@.has_king(*side),
        ensures
            b == self@.has_legal_move(*side),
    {
        let mut row: i8 = 0;
        while row < 8
            invariant
                self.wf(),
                self@.has_king(*side),
                0 <= row <= 8,
                forall|s: Coord, e: Coord| s.on_board() && s.row < row ==> !self@.legal(*side, s, e),
            decreases 8 - row,
        {
            let mut col: i8 = 0;
            while col < 8
                invariant
                    self.wf(),
                    self@.has_king(*side),
                    0 <= row < 8,
                    0 <= col <= 8,
                    forall|s: Coord, e: Coord|
                        s.on_board() && (s.row < row || (s.row == row && s.col < col))
                            ==> !self@.legal(*side, s, e),
                decreases 8 - col,
            {
                let start = Coord { row, col };
                let moves = self.get_legal_moves(side, &start);
                if moves.len() > 0 {
                    proof {
                        assert(moves@.contains(moves[0]));
                    }
                    return true;
                }
                proof {
                    assert forall|e: Coord| !self@.legal(*side, start, e) by {
                        if self@.legal(*side, start, e) {
                            assert(moves@.contains(e));
                        }
                    }
                }
                col += 1;
            }
            row += 1;
        }
        false
    }

    /// How the game stands for `side`, whose turn it is: checkmate or
    /// stalemate when it has no legal move, with and without its king in
    /// check.
    pub fn status(&self, side: &Color) -> (status: Status)
        requires
            self.wf(),
            self@.has_king(*side),
        ensures
            status == self@.status(*side),
    {
        if self.has_legal_moves(side) {
            Status::Ongoing
        } else if self.king_is_in_check(side) {
            Status::Checkmate
        } else {
            Status::Stalemate
        }
    }

    /// Makes the move for `side` if it is legal and leaves the board as it is
    /// otherwise. Says whether the move was made.
    pub fn try_move(&mut self, side: &Color, start: &Coord, end: &Coord) -> (made: bool)
        requires
            old(self).wf(),
            old(self)@.has_king(*side),
        ensures
            final(self).wf(),
            made == old(self)@.legal(*side, *start, *end),
            made ==> final(self)@ == old(self)@.after_move(*start, *end),
            made ==> !final(self)@.in_check(*side),
            final(self)@.has_king(*side),
            !made ==> final(self)@ == old(self)@,
    {
        if self.is_legal_move(side, start, end) {
            self.make_move(start, end);
            true
        } else {
            false
        }
    }
}

} // verus!
