//! The mathematical model of a game: what stands on each square, the log of
//! moves, and the rules of chess stated over them.

use vstd::prelude::*;
use vstd::math::abs;
use crate::coord::Coord;
use crate::piece::{Color, Piece, PieceKind};

verus! {

/// A position: the 64 squares in row-major order and the moves applied so
/// far, oldest first.
pub struct Position {
    pub squares: Seq<Option<Piece>>,
    pub history: Seq<(Coord, Coord)>,
}

/// How a game stands for the side whose turn it is.
#[derive(Clone, Copy, Debug, PartialEq, Eq, Structural)]
pub enum Status {
    /// The side has a legal move.
    Ongoing,
    /// The side has no legal move and its king is in check: the other side
    /// has won.
    Checkmate,
    /// The side has no legal move and its king is not in check: a draw.
    Stalemate,
}

/// The kind of piece that starts on the given column of a side's home row.
pub open spec fn home_kind(col: int) -> PieceKind {
    if col == 0 || col == 7 {
        PieceKind::Rook
    } else if col == 1 || col == 6 {
        PieceKind::Knight
    } else if col == 2 || col == 5 {
        PieceKind::Bishop
    } else if col == 3 {
        PieceKind::Queen
    } else {
        PieceKind::King
    }
}

/// What stands on a square when a game begins: White on rows 0 and 1, Black
/// mirrored on rows 7 and 6, nothing has moved.
pub open spec fn initial_piece(c: Coord) -> Option<Piece> {
    if !c.on_board() {
        None
    } else if c.row == 0 {
        Some(Piece { kind: home_kind(c.col as int), color: Color::White, has_moved: false })
    } else if c.row == 1 {
        Some(Piece { kind: PieceKind::Pawn, color: Color::White, has_moved: false })
    } else if c.row == 6 {
        Some(Piece { kind: PieceKind::Pawn, color: Color::Black, has_moved: false })
    } else if c.row == 7 {
        Some(Piece { kind: home_kind(c.col as int), color: Color::Black, has_moved: false })
    } else {
        None
    }
}

/// The column of the `j`-th officer in the order in which a side's home row
/// is listed: rooks, knights, bishops, king, queen.
pub open spec fn officer_col(j: int) -> int {
    if j == 0 {
        0
    } else if j == 1 {
        7
    } else if j == 2 {
        1
    } else if j == 3 {
        6
    } else if j == 4 {
        2
    } else if j == 5 {
        5
    } else if j == 6 {
        4
    } else {
        3
    }
}

/// The `i`-th of the 32 pieces of the standard layout with its square: the
/// eight white officers, the eight white pawns by column, then Black's in the
/// same order, mirrored onto rows 7 and 6.
pub open spec fn standard_piece(i: int) -> (Coord, Piece) {
    let j = if i < 16 {
        i
    } else {
        i - 16
    };
    let color = if i < 16 {
        Color::White
    } else {
        Color::Black
    };
    let row = if j < 8 {
        0
    } else {
        1
    };
    let col = if j < 8 {
        officer_col(j)
    } else {
        j - 8
    };
    let kind = if j < 8 {
        home_kind(col)
    } else {
        PieceKind::Pawn
    };
    (
        Coord::at(
            if i < 16 {
                row
            } else {
                7 - row
            },
            col,
        ),
        Piece { kind, color, has_moved: false },
    )
}

/// The standard layout as a list of pieces with their squares.
pub open spec fn standard_pieces() -> Seq<(Coord, Piece)> {
    Seq::new(32, |i: int| standard_piece(i))
}

/// What a list of placements leaves on `c`: the piece of the last entry for
/// that square, if any.
pub open spec fn occupant(pieces: Seq<(Coord, Piece)>, c: Coord) -> Option<Piece>
    decreases pieces.len(),
{
    if pieces.len() == 0 {
        None
    } else if pieces.last().0 == c {
        Some(pieces.last().1)
    } else {
        occupant(pieces.drop_last(), c)
    }
}

/// The entry at `j` decides what stands on its square when no later entry
/// names that square.
pub proof fn occupant_is_last_placed(pieces: Seq<(Coord, Piece)>, j: int, c: Coord)
    requires
        0 <= j < pieces.len(),
        pieces[j].0 == c,
        forall|k: int| j < k < pieces.len() ==> (#[trigger] pieces[k]).0 != c,
    ensures
        occupant(pieces, c) == Some(pieces[j].1),
    decreases pieces.len(),
{
    if j < pieces.len() - 1 {
        assert(pieces.last().0 != c);
        occupant_is_last_placed(pieces.drop_last(), j, c);
    }
}

/// A square that no entry names stays empty.
pub proof fn occupant_of_unnamed(pieces: Seq<(Coord, Piece)>, c: Coord)
    requires
        forall|k: int| 0 <= k < pieces.len() ==> (#[trigger] pieces[k]).0 != c,
    ensures
        occupant(pieces, c) is None,
    decreases pieces.len(),
{
    if pieces.len() > 0 {
        assert(pieces.last().0 != c);
        occupant_of_unnamed(pieces.drop_last(), c);
    }
}

/// The index in the standard layout of the piece that starts on `c`, for a
/// square of rows 0, 1, 6 and 7.
pub open spec fn standard_index(c: Coord) -> int {
    let officer = if c.col == 0 {
        0
    } else if c.col == 7 {
        1
    } else if c.col == 1 {
        2
    } else if c.col == 6 {
        3
    } else if c.col == 2 {
        4
    } else if c.col == 5 {
        5
    } else if c.col == 4 {
        6
    } else {
        7int
    };
    if c.row == 0 {
        officer
    } else if c.row == 1 {
        8 + c.col
    } else if c.row == 6 {
        24 + c.col
    } else {
        16 + officer
    }
}

/// Placing the standard layout on an empty board gives the starting
/// position.
pub proof fn standard_setup_is_initial()
    ensures
        Position::setup(standard_pieces()) == Position::initial(),
{
    let pieces = standard_pieces();
    assert forall|i: int| 0 <= i < 64 implies occupant(pieces, #[trigger] Coord::nth(i))
        == initial_piece(Coord::nth(i)) by {
        let c = Coord::nth(i);
        assert(c.on_board());
        if c.row == 0 || c.row == 1 || c.row == 6 || c.row == 7 {
            let j = standard_index(c);
            assert(pieces[j] == standard_piece(j));
            assert forall|k: int| j < k < pieces.len() implies (#[trigger] pieces[k]).0 != c by {
                assert(pieces[k] == standard_piece(k));
            }
            occupant_is_last_placed(pieces, j, c);
        } else {
            assert forall|k: int| 0 <= k < pieces.len() implies (#[trigger] pieces[k]).0 != c by {
                assert(pieces[k] == standard_piece(k));
            }
            occupant_of_unnamed(pieces, c);
        }
    }
    assert(Position::setup(pieces).squares =~= Position::initial().squares);
}

/// Knight geometry: one step along one axis and two along the other.
pub open spec fn knight_pattern(s: Coord, e: Coord) -> bool {
    let dr = abs(e.row - s.row);
    let dc = abs(e.col - s.col);
    (dr == 1 && dc == 2) || (dr == 2 && dc == 1)
}

/// King geometry: one of the eight adjacent squares.
pub open spec fn king_pattern(s: Coord, e: Coord) -> bool {
    let dr = abs(e.row - s.row);
    let dc = abs(e.col - s.col);
    dr <= 1 && dc <= 1 && !(dr == 0 && dc == 0)
}

impl Position {
    /// Validity of a model value: 64 squares, and every logged move joins two
    /// squares of the board.
    pub open spec fn wf(self) -> bool {
        &&& self.squares.len() == 64
        &&& forall|i: int|
            0 <= i < self.history.len() ==> (#[trigger] self.history[i]).0.on_board()
                && self.history[i].1.on_board()
    }

    /// The occupant of a square; nothing stands off the board.
    pub open spec fn piece_at(self, c: Coord) -> Option<Piece> {
        if c.on_board() {
            self.squares[c.index()]
        } else {
            None
        }
    }

    /// The position with the occupant of `c` replaced; unchanged when `c` is
    /// off the board.
    pub open spec fn put(self, c: Coord, p: Option<Piece>) -> Position {
        if c.on_board() {
            Position { squares: self.squares.update(c.index(), p), history: self.history }
        } else {
            self
        }
    }

    /// The standard starting position with an empty log.
    pub open spec fn initial() -> Position {
        Position {
            squares: Seq::new(64, |i: int| initial_piece(Coord::nth(i))),
            history: Seq::empty(),
        }
    }

    /// The position with the given pieces placed in order on an empty board,
    /// and an empty log.
    pub open spec fn setup(pieces: Seq<(Coord, Piece)>) -> Position {
        Position {
            squares: Seq::new(64, |i: int| occupant(pieces, Coord::nth(i))),
            history: Seq::empty(),
        }
    }

    /// Whether every square strictly between `s` and `e` is empty.
    pub open spec fn path_clear(self, s: Coord, e: Coord) -> bool {
        forall|k: int|
            0 <= k < s.between(e).len() ==> self.piece_at(#[trigger] s.between(e)[k]) is None
    }

    /// Pawn pattern: onto an occupied square only diagonally forward against
    /// the other color; onto an empty square straight ahead by one, or by two
    /// for a pawn that has not moved and has nothing in its way.
    pub open spec fn pawn_pattern(self, pawn: Piece, s: Coord, e: Coord) -> bool {
        let f = pawn.color.direction();
        match self.piece_at(e) {
            Some(target) => {
                &&& target.color != pawn.color
                &&& e.row == s.row + f
                &&& abs(e.col - s.col) == 1
            },
            None => {
                &&& e.col == s.col
                &&& {
                    ||| e.row == s.row + f
                    ||| {
                        &&& e.row == s.row + 2 * f
                        &&& !pawn.has_moved
                        &&& self.piece_at(Coord::at(s.row + f, s.col as int)) is None
                    }
                }
            },
        }
    }

    /// The en passant condition for `pawn` going from `s` to `e`: one step
    /// diagonally forward, onto the square behind a pawn of the other color
    /// that stands beside `s` and that the latest logged move took there, two
    /// squares straight ahead.
    pub open spec fn en_passant(self, pawn: Piece, s: Coord, e: Coord) -> bool {
        let f = pawn.color.direction();
        &&& e.row == s.row + f
        &&& abs(e.col - s.col) == 1
        &&& self.history.len() > 0
        &&& {
            let (from, to) = self.history.last();
            &&& to.row == s.row
            &&& to.col == e.col
            &&& from.col == to.col
            &&& to.row == from.row - 2 * f
            &&& self.piece_at(to) matches Some(passed)
            &&& passed.kind == PieceKind::Pawn
            &&& passed.color != pawn.color
        }
    }

    /// Bishop pattern: a diagonal of at least one step with nothing between.
    pub open spec fn bishop_pattern(self, s: Coord, e: Coord) -> bool {
        &&& abs(e.row - s.row) == abs(e.col - s.col)
        &&& e.row != s.row
        &&& self.path_clear(s, e)
    }

    /// Rook pattern: same row or same column with nothing between.
    pub open spec fn rook_pattern(self, s: Coord, e: Coord) -> bool {
        &&& (e.row == s.row || e.col == s.col)
        &&& self.path_clear(s, e)
    }

    /// Queen pattern: bishop or rook.
    pub open spec fn queen_pattern(self, s: Coord, e: Coord) -> bool {
        self.bishop_pattern(s, e) || self.rook_pattern(s, e)
    }

    /// The movement pattern of `piece`, castling left aside.
    pub open spec fn pattern(self, piece: Piece, s: Coord, e: Coord) -> bool {
        match piece.kind {
            PieceKind::Pawn => self.pawn_pattern(piece, s, e) || self.en_passant(piece, s, e),
            PieceKind::Knight => knight_pattern(s, e),
            PieceKind::Bishop => self.bishop_pattern(s, e),
            PieceKind::Rook => self.rook_pattern(s, e),
            PieceKind::Queen => self.queen_pattern(s, e),
            PieceKind::King => king_pattern(s, e),
        }
    }

    /// Whether `side` may send a piece from `s` to `e` as far as occupancy
    /// goes: `e` is on the board, a piece of `side` stands on `s`, and none of
    /// its own on `e`. Yields that piece.
    pub open spec fn mover(self, side: Color, s: Coord, e: Coord) -> Option<Piece> {
        match self.piece_at(s) {
            Some(piece) => if e.on_board() && piece.color == side && !(self.piece_at(e) matches Some(
                target,
            ) && target.color == side) {
                Some(piece)
            } else {
                None
            },
            None => None,
        }
    }

    /// Whether the piece of `side` on `s` reaches `e` by its pattern, castling
    /// and the safety of its own king left aside.
    pub open spec fn reaches(self, side: Color, s: Coord, e: Coord) -> bool {
        self.mover(side, s, e) matches Some(piece) && self.pattern(piece, s, e)
    }

    /// Whether some piece of the opponent of `side` reaches `target`.
    pub open spec fn endangered(self, side: Color, target: Coord) -> bool {
        exists|from: Coord| self.reaches(side.opponent(), from, target)
    }

    /// The castling condition for `king` going from `s` to `e`: the king has
    /// not moved and shifts two columns along its row; a rook of its color
    /// that has not moved stands in the corner on that side; the king's
    /// square, the rook's square and both squares on the king's way are out
    /// of the opponent's reach.
    pub open spec fn castle(self, king: Piece, s: Coord, e: Coord) -> bool {
        let corner = Coord::at(s.row as int, if e.col > s.col { 7 } else { 0 });
        let middle = Coord::at(s.row as int, (s.col + e.col) / 2);
        &&& !king.has_moved
        &&& e.row == s.row
        &&& abs(e.col - s.col) == 2
        &&& self.piece_at(corner) matches Some(rook)
        &&& rook.kind == PieceKind::Rook
        &&& rook.color == king.color
        &&& !rook.has_moved
        &&& !self.endangered(king.color, s)
        &&& !self.endangered(king.color, corner)
        &&& !self.endangered(king.color, middle)
        &&& !self.endangered(king.color, e)
    }

    /// Legality but for the safety of the mover's king: `reaches`, or for a
    /// king the castling condition.
    pub open spec fn pseudo_legal(self, side: Color, s: Coord, e: Coord) -> bool {
        self.mover(side, s, e) matches Some(piece) && (self.pattern(piece, s, e) || (piece.kind
            == PieceKind::King && self.castle(piece, s, e)))
    }

    /// The position after the piece on `s` has gone to `e`, whatever the move:
    /// a pawn that meets the en passant condition first removes the pawn
    /// beside it in the destination column; a king that shifts more than one
    /// column first puts a moved rook of its color next to its destination, on
    /// the side it came from, and empties the corner it was heading for; then
    /// the piece, marked as moved (as a queen, for a pawn that lands on row 0
    /// or 7), is put on `e`, `s` is emptied and the move is logged. With no
    /// piece on `s` nothing changes.
    pub open spec fn after_move(self, s: Coord, e: Coord) -> Position {
        match self.piece_at(s) {
            None => self,
            Some(piece) => {
                let taken = if piece.kind == PieceKind::Pawn && self.en_passant(piece, s, e) {
                    self.put(Coord::at(s.row as int, e.col as int), None)
                } else {
                    self
                };
                let rook = Some(Piece { kind: PieceKind::Rook, color: piece.color, has_moved: true });
                let castled = if piece.kind == PieceKind::King && e.col - s.col > 1 {
                    taken.put(Coord::at(s.row as int, e.col - 1), rook).put(
                        Coord::at(s.row as int, 7),
                        None,
                    )
                } else if piece.kind == PieceKind::King && e.col - s.col < -1 {
                    taken.put(Coord::at(s.row as int, e.col + 1), rook).put(
                        Coord::at(s.row as int, 0),
                        None,
                    )
                } else {
                    taken
                };
                let arrived = if piece.kind == PieceKind::Pawn && (e.row == 0 || e.row == 7) {
                    Piece { kind: PieceKind::Queen, color: piece.color, has_moved: true }
                } else {
                    Piece { kind: piece.kind, color: piece.color, has_moved: true }
                };
                let moved = castled.put(e, Some(arrived)).put(s, None);
                Position { squares: moved.squares, history: self.history.push((s, e)) }
            },
        }
    }

    /// Whether applying the move cannot leave the board: a piece on `s` needs
    /// `e` on the board.
    pub open spec fn admits(self, s: Coord, e: Coord) -> bool {
        self.piece_at(s) is Some ==> e.on_board()
    }

    /// The position after the given moves, applied in order.
    pub open spec fn after_moves(self, moves: Seq<(Coord, Coord)>) -> Position
        decreases moves.len(),
    {
        if moves.len() == 0 {
            self
        } else {
            self.after_moves(moves.drop_last()).after_move(moves.last().0, moves.last().1)
        }
    }

    /// Whether each of the given moves, in its turn, is admitted.
    pub open spec fn admits_all(self, moves: Seq<(Coord, Coord)>) -> bool {
        forall|i: int|
            0 <= i < moves.len() ==> self.after_moves(#[trigger] moves.take(i)).admits(
                moves[i].0,
                moves[i].1,
            )
    }

    /// The position reached from the start of a game by the given moves.
    pub open spec fn replay(moves: Seq<(Coord, Coord)>) -> Position {
        Position::initial().after_moves(moves)
    }

    /// Whether the position is what its own log gives when replayed from the
    /// start of a game, as every position is that was reached from there by
    /// making moves.
    pub open spec fn is_game(self) -> bool {
        self == Position::replay(self.history)
    }

    /// Whether a king of `side` stands on `c`.
    pub open spec fn holds_king(self, side: Color, c: Coord) -> bool {
        self.piece_at(c) matches Some(piece) && piece.kind == PieceKind::King && piece.color
            == side
    }

    /// Whether `side` has a king on the board.
    pub open spec fn has_king(self, side: Color) -> bool {
        exists|c: Coord| self.holds_king(side, c)
    }

    /// Whether `c` is the first square in row-major order with a king of
    /// `side`.
    pub open spec fn is_king_square(self, side: Color, c: Coord) -> bool {
        &&& self.holds_king(side, c)
        &&& forall|d: Coord| d.precedes(c) ==> !self.holds_king(side, d)
    }

    /// The square of the king of `side`: the first in row-major order, should
    /// there be several.
    pub open spec fn king_square(self, side: Color) -> Coord {
        choose|c: Coord| self.is_king_square(side, c)
    }

    /// At most one square is the first with a king of `side`.
    pub proof fn king_square_is_unique(self, side: Color, a: Coord, b: Coord)
        requires
            self.is_king_square(side, a),
            self.is_king_square(side, b),
        ensures
            a == b,
    {
        if a != b {
            assert(a.precedes(b) || b.precedes(a));
        }
    }

    /// Whether the king of `side` is within the opponent's reach.
    pub open spec fn in_check(self, side: Color) -> bool {
        self.endangered(side, self.king_square(side))
    }

    /// Full legality: pseudo-legal, and after the move the mover's king is
    /// not in check.
    pub open spec fn legal(self, side: Color, s: Coord, e: Coord) -> bool {
        self.pseudo_legal(side, s, e) && !self.after_move(s, e).in_check(side)
    }

    /// Whether `side` has a legal move.
    pub open spec fn has_legal_move(self, side: Color) -> bool {
        exists|s: Coord, e: Coord| self.legal(side, s, e)
    }

    /// How the game stands for `side`, whose turn it is.
    pub open spec fn status(self, side: Color) -> Status {
        if self.has_legal_move(side) {
            Status::Ongoing
        } else if self.in_check(side) {
            Status::Checkmate
        } else {
            Status::Stalemate
        }
    }
}

} // verus!
