//! Properties of the rules that hold of every position.

use vstd::prelude::*;
use vstd::math::abs;
use crate::coord::Coord;
use crate::piece::{Color, Piece, PieceKind};
use crate::position::Position;

verus! {

/// A legal move, once made, never leaves the mover's own king within the
/// opponent's reach.
pub proof fn legal_move_keeps_king_safe(pos: Position, side: Color, start: Coord, end: Coord)
    requires
        pos.legal(side, start, end),
    ensures
        !pos.after_move(start, end).in_check(side),
        !pos.after_move(start, end).endangered(side, pos.after_move(start, end).king_square(side)),
{
}

/// The starting position is the replay of its own, empty, log.
pub proof fn initial_is_game()
    ensures
        Position::initial().is_game(),
{
}

/// Making a move keeps a position the replay of its log.
pub proof fn move_keeps_game(pos: Position, start: Coord, end: Coord)
    requires
        pos.is_game(),
    ensures
        pos.after_move(start, end).is_game(),
{
    if pos.piece_at(start) is Some {
        let log = pos.after_move(start, end).history;
        assert(log.drop_last() =~= pos.history);
    }
}

/// Making a move and taking it back restores squares and log exactly, in
/// every position that is the replay of its log: replaying the log of the
/// position after the move, short of its last entry, gives the position before
/// the move.
pub proof fn undo_restores(pos: Position, start: Coord, end: Coord)
    requires
        pos.is_game(),
        pos.piece_at(start) is Some,
    ensures
        pos.after_move(start, end).history.len() == pos.history.len() + 1,
        Position::replay(pos.after_move(start, end).history.drop_last()) == pos,
{
    let log = pos.after_move(start, end).history;
    assert(log.drop_last() =~= pos.history);
}

/// Whether a knight reaches a square depends on the two squares alone, not
/// on what stands anywhere else.
pub proof fn knight_ignores_other_squares(
    p: Position,
    q: Position,
    side: Color,
    start: Coord,
    end: Coord,
)
    requires
        p.piece_at(start) matches Some(piece) && piece.kind == PieceKind::Knight,
        q.piece_at(start) == p.piece_at(start),
        q.piece_at(end) == p.piece_at(end),
    ensures
        p.reaches(side, start, end) == q.reaches(side, start, end),
        p.pseudo_legal(side, start, end) == q.pseudo_legal(side, start, end),
{
}

/// A piece on any square strictly between two squares of one row, column or
/// diagonal blocks bishop, rook and queen alike.
pub proof fn occupied_square_blocks_sliders(pos: Position, start: Coord, end: Coord, k: int)
    requires
        0 <= k < start.between(end).len(),
        pos.piece_at(start.between(end)[k]) is Some,
    ensures
        !pos.bishop_pattern(start, end),
        !pos.rook_pattern(start, end),
        !pos.queen_pattern(start, end),
{
}

/// With every square between them empty, a bishop's pattern joins any two
/// distinct squares of one diagonal, a rook's any two of one row or column,
/// and a queen's either.
pub proof fn clear_line_admits_sliders(pos: Position, start: Coord, end: Coord)
    requires
        pos.path_clear(start, end),
        start.aligned(end),
        start != end,
    ensures
        pos.queen_pattern(start, end),
        (end.row != start.row && end.col != start.col) ==> pos.bishop_pattern(start, end),
        (end.row == start.row || end.col == start.col) ==> pos.rook_pattern(start, end),
{
}

/// Right after a pawn has advanced two squares straight ahead, a pawn of the
/// other color standing beside it meets the en passant condition for the
/// square that the first pawn passed over.
pub proof fn double_step_allows_en_passant(
    pos: Position,
    from: Coord,
    to: Coord,
    captor: Piece,
    start: Coord,
    end: Coord,
)
    requires
        pos.wf(),
        pos.piece_at(from) matches Some(pawn) && pawn.kind == PieceKind::Pawn && pawn.color
            != captor.color,
        to.on_board(),
        to.col == from.col,
        to.row == from.row - 2 * captor.color.direction(),
        0 < to.row < 7,
        start.row == to.row,
        abs(start.col - to.col) == 1,
        end.row == to.row + captor.color.direction(),
        end.col == to.col,
    ensures
        pos.after_move(from, to).en_passant(captor, start, end),
{
    let after = pos.after_move(from, to);
    assert(after.history.last() == (from, to));
    assert(from != to);
}

/// The en passant condition rests on the latest logged move alone: it fails
/// with an empty log, and whenever that move was not a straight advance by
/// two squares that ended beside the capturing pawn, in the destination
/// column. What stands there is a pawn of the other color.
pub proof fn en_passant_needs_latest_double_step(
    pos: Position,
    pawn: Piece,
    start: Coord,
    end: Coord,
)
    requires
        pos.en_passant(pawn, start, end),
    ensures
        pos.history.len() > 0,
        pos.history.last().1 == (Coord { row: start.row, col: end.col }),
        pos.history.last().0.col == end.col,
        abs(pos.history.last().1.row - pos.history.last().0.row) == 2,
        pos.piece_at(Coord { row: start.row, col: end.col }) matches Some(passed) && passed.kind
            == PieceKind::Pawn && passed.color != pawn.color,
{
}

/// Castling takes a king and a rook that have not moved, and neither the
/// rook's square nor any square that the king leaves, crosses or lands on may
/// be within the opponent's reach.
pub proof fn castle_needs_unmoved_and_safe(pos: Position, king: Piece, start: Coord, end: Coord)
    requires
        pos.castle(king, start, end),
    ensures
        !king.has_moved,
        pos.piece_at(Coord::at(start.row as int, if end.col > start.col { 7 } else { 0 }))
            matches Some(rook) && rook.kind == PieceKind::Rook && !rook.has_moved,
        !pos.endangered(
            king.color,
            Coord::at(start.row as int, if end.col > start.col { 7 } else { 0 }),
        ),
        forall|k: int|
            0 <= k <= 2 ==> !pos.endangered(king.color, #[trigger] start.step_toward(end, k)),
{
    assert forall|k: int| 0 <= k <= 2 implies !pos.endangered(
        king.color,
        #[trigger] start.step_toward(end, k),
    ) by {
        if k == 0 {
            assert(start.step_toward(end, 0) == start);
        } else if k == 1 {
            assert(start.step_toward(end, 1) == Coord::at(
                start.row as int,
                (start.col + end.col) / 2,
            ));
        } else {
            assert(start.step_toward(end, 2) == end);
        }
    }
}

/// A king that shifts two columns along its row ends on its destination as a
/// moved king, with a moved rook of its color on the square it crossed and
/// the corner it headed for empty; its own square is left empty.
pub proof fn castling_relocates_rook(pos: Position, start: Coord, end: Coord)
    requires
        pos.wf(),
        pos.piece_at(start) matches Some(king) && king.kind == PieceKind::King,
        end.on_board(),
        end.row == start.row,
        abs(end.col - start.col) == 2,
        0 < end.col < 7,
    ensures
        ({
            let after = pos.after_move(start, end);
            let color = pos.piece_at(start)->0.color;
            let crossed = Coord::at(start.row as int, (start.col + end.col) / 2);
            let corner = Coord::at(start.row as int, if end.col > start.col { 7 } else { 0 });
            &&& after.piece_at(end) == Some(
                Piece { kind: PieceKind::King, color, has_moved: true },
            )
            &&& after.piece_at(crossed) == Some(
                Piece { kind: PieceKind::Rook, color, has_moved: true },
            )
            &&& after.piece_at(corner) is None
            &&& after.piece_at(start) is None
        }),
{
}

/// A pawn that lands on row 0 or row 7 stands there as a moved queen of its
/// own color.
pub proof fn pawn_promotes_on_last_row(pos: Position, start: Coord, end: Coord)
    requires
        pos.wf(),
        pos.piece_at(start) matches Some(pawn) && pawn.kind == PieceKind::Pawn,
        end.on_board(),
        end.row == 0 || end.row == 7,
        start != end,
    ensures
        pos.after_move(start, end).piece_at(end) == Some(
            Piece {
                kind: PieceKind::Queen,
                color: pos.piece_at(start)->0.color,
                has_moved: true,
            },
        ),
{
}

/// A move of `side` that is legal short of check leaves `side` with a king:
/// a king on the board is all that testing a move for legality needs.
pub proof fn mover_keeps_its_king(pos: Position, side: Color, start: Coord, end: Coord)
    requires
        pos.wf(),
        pos.has_king(side),
        pos.pseudo_legal(side, start, end),
    ensures
        pos.after_move(start, end).has_king(side),
{
    let after = pos.after_move(start, end);
    let piece = pos.piece_at(start)->0;
    if piece.kind == PieceKind::King {
        assert(after.holds_king(side, end));
    } else {
        let k = choose|c: Coord| pos.holds_king(side, c);
        assert(k != start);
        assert(k != end);
        assert(after.piece_at(k) == pos.piece_at(k));
        assert(after.holds_king(side, k));
    }
}

} // verus!
