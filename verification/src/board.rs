//! The executable board: storage, construction and access to squares.

use vstd::prelude::*;
use crate::coord::Coord;
use crate::piece::{Color, Piece, PieceKind};
use crate::position::{occupant, standard_piece, standard_pieces, standard_setup_is_initial, Position};

verus! {

/// A chess board with the log of the moves made on it.
pub struct Board {
    tiles: Vec<Option<Piece>>,
    history: Vec<(Coord, Coord)>,
}

impl View for Board {
    type V = Position;

    closed spec fn view(&self) -> Position {
        Position { squares: self.tiles@, history: self.history@ }
    }
}

impl Clone for Board {
    /// A copy of the board with the same squares and the same log.
    fn clone(&self) -> (b: Board)
        ensures
            b@ == self@,
    {
        let mut tiles: Vec<Option<Piece>> = Vec::new();
        let mut i: usize = 0;
        while i < self.tiles.len()
            invariant
                i <= self.tiles.len(),
                tiles@ == self.tiles@.take(i as int),
            decreases self.tiles.len() - i,
        {
            tiles.push(self.tiles[i]);
            proof {
                assert(self.tiles@.take(i + 1) =~= self.tiles@.take(i as int).push(self.tiles[i as int]));
            }
            i += 1;
        }
        let mut history: Vec<(Coord, Coord)> = Vec::new();
        let mut j: usize = 0;
        while j < self.history.len()
            invariant
                j <= self.history.len(),
                history@ == self.history@.take(j as int),
            decreases self.history.len() - j,
        {
            history.push(self.history[j]);
            proof {
                assert(self.history@.take(j + 1) =~= self.history@.take(j as int).push(
                    self.history[j as int],
                ));
            }
            j += 1;
        }
        assert(self.tiles@.take(i as int) =~= self.tiles@);
        assert(self.history@.take(j as int) =~= self.history@);
        Board { tiles, history }
    }
}

impl Board {
    /// Validity of a board: that of the position it holds.
    pub open spec fn wf(&self) -> bool {
        self@.wf()
    }

    /// A board in the standard starting position with an empty log.
    pub fn new() -> (b: Board)
        ensures
            b.wf(),
            b@ == Position::initial(),
    {
        proof {
            standard_setup_is_initial();
        }
        Board::from_pieces(Board::default_pieces())
    }

    /// A board with the given pieces placed in order, a later one replacing
    /// an earlier one on the same square, and an empty log.
    pub fn from_pieces(pieces: Vec<(Coord, Piece)>) -> (b: Board)
        requires
            forall|i: int| 0 <= i < pieces.len() ==> (#[trigger] pieces[i]).0.on_board(),
        ensures
            b.wf(),
            b@ == Position::setup(pieces@),
    {
        let mut tiles: Vec<Option<Piece>> = Vec::new();
        let mut i: usize = 0;
        while i < 64
            invariant
                i <= 64,
                tiles.len() == i,
                forall|j: int| 0 <= j < i ==> tiles[j] is None,
            decreases 64 - i,
        {
            tiles.push(None);
            i += 1;
        }
        let mut k: usize = 0;
        while k < pieces.len()
            invariant
                k <= pieces.len(),
                tiles.len() == 64,
                forall|i: int| 0 <= i < pieces.len() ==> (#[trigger] pieces[i]).0.on_board(),
                forall|j: int|
                    0 <= j < 64 ==> tiles[j] == occupant(
                        pieces@.take(k as int),
                        #[trigger] Coord::nth(j),
                    ),
            decreases pieces.len() - k,
        {
            let (pos, piece) = pieces[k];
            tiles.set((pos.row as usize) * 8 + (pos.col as usize), Some(piece));
            proof {
                let placed = pieces@.take(k + 1);
                assert(placed.drop_last() =~= pieces@.take(k as int));
                assert(placed.last() == pieces[k as int]);
            }
            k += 1;
        }
        assert(pieces@.take(k as int) =~= pieces@);
        let b = Board { tiles, history: Vec::new() };
        assert(b@.squares =~= Position::setup(pieces@).squares);
        b
    }

    /// The 32 pieces of the standard layout with their squares.
    pub fn default_pieces() -> (pieces: Vec<(Coord, Piece)>)
        ensures
            pieces@ == standard_pieces(),
    {
        let mut pieces: Vec<(Coord, Piece)> = Vec::new();
        pieces.push((Coord { row: 0, col: 0 }, Piece::new(PieceKind::Rook, Color::White, false)));
        pieces.push((Coord { row: 0, col: 7 }, Piece::new(PieceKind::Rook, Color::White, false)));
        pieces.push((Coord { row: 0, col: 1 }, Piece::new(PieceKind::Knight, Color::White, false)));
        pieces.push((Coord { row: 0, col: 6 }, Piece::new(PieceKind::Knight, Color::White, false)));
        pieces.push((Coord { row: 0, col: 2 }, Piece::new(PieceKind::Bishop, Color::White, false)));
        pieces.push((Coord { row: 0, col: 5 }, Piece::new(PieceKind::Bishop, Color::White, false)));
        pieces.push((Coord { row: 0, col: 4 }, Piece::new(PieceKind::King, Color::White, false)));
        pieces.push((Coord { row: 0, col: 3 }, Piece::new(PieceKind::Queen, Color::White, false)));
        let mut col: i8 = 0;
        while col < 8
            invariant
                0 <= col <= 8,
                pieces.len() == 8 + col,
                forall|i: int| 0 <= i < pieces.len() ==> pieces[i] == standard_piece(i),
            decreases 8 - col,
        {
            pieces.push((Coord { row: 1, col }, Piece::new(PieceKind::Pawn, Color::White, false)));
            col += 1;
        }
        let mut i: usize = 0;
        while i < 16
            invariant
                i <= 16,
                pieces.len() == 16 + i,
                forall|i: int| 0 <= i < pieces.len() ==> pieces[i] == standard_piece(i),
            decreases 16 - i,
        {
            assert(pieces[i as int] == standard_piece(i as int));
            let (pos, piece) = pieces[i];
            pieces.push(
                (
                    Coord { row: 7 - pos.row, col: pos.col },
                    Piece::new(piece.kind, Color::Black, false),
                ),
            );
            i += 1;
        }
        assert(pieces@ =~= standard_pieces());
        pieces
    }

    /// Whether `pos` names a square of the board.
    pub fn contains(&self, pos: &Coord) -> (b: bool)
        ensures
            b == pos.on_board(),
    {
        pos.row >= 0 && pos.col >= 0 && pos.row < 8 && pos.col < 8
    }

    /// The occupant of `pos`, or `None` for an empty square and for a
    /// coordinate off the board.
    pub fn get(&self, pos: &Coord) -> (p: Option<Piece>)
        requires
            self.wf(),
        ensures
            p == self@.piece_at(*pos),
    {
        if self.contains(pos) {
            self.tiles[(pos.row as usize) * 8 + (pos.col as usize)]
        } else {
            None
        }
    }

    /// Replaces the occupant of a square of the board.
    pub fn set(&mut self, pos: &Coord, piece: Option<Piece>)
        requires
            old(self).wf(),
            pos.on_board(),
        ensures
            final(self).wf(),
            final(self)@ == old(self)@.put(*pos, piece),
    {
        let i: usize = (pos.row as usize) * 8 + (pos.col as usize);
        self.tiles.set(i, piece);
        assert(self@.history == old(self)@.history);
    }

    /// The number of moves in the log.
    pub fn history_len(&self) -> (n: usize)
        ensures
            n == self@.history.len(),
    {
        self.history.len()
    }

    /// The `i`-th move of the log.
    pub(crate) fn logged_move(&self, i: usize) -> (m: (Coord, Coord))
        requires
            i < self@.history.len(),
        ensures
            m == self@.history[i as int],
    {
        self.history[i]
    }

    /// The first `n` moves of the log.
    pub(crate) fn logged_prefix(&self, n: usize) -> (moves: &[(Coord, Coord)])
        requires
            n <= self@.history.len(),
        ensures
            moves@ == self@.history.take(n as int),
    {
        vstd::slice::slice_subrange(self.history.as_slice(), 0, n)
    }

    /// Appends a move to the log.
    pub(crate) fn log(&mut self, start: Coord, end: Coord)
        requires
            old(self).wf(),
            start.on_board(),
            end.on_board(),
        ensures
            final(self).wf(),
            final(self)@.squares == old(self)@.squares,
            final(self)@.history == old(self)@.history.push((start, end)),
    {
        self.history.push((start, end));
        assert forall|i: int| 0 <= i < self@.history.len() implies (#[trigger] self@.history[i]).0.on_board()
            && self@.history[i].1.on_board() by {
            if i < old(self)@.history.len() {
                assert(self@.history[i] == old(self)@.history[i]);
            }
        }
    }
}

} // verus!
