use chess_rules::{Board, Color, Coord, Piece, PieceKind, Status};

fn at(row: i8, col: i8) -> Coord {
    Coord { row, col }
}

fn piece(kind: PieceKind, color: Color, has_moved: bool) -> Piece {
    Piece { kind, color, has_moved }
}

fn squares(board: &Board) -> Vec<Option<Piece>> {
    let mut all = Vec::new();
    for row in 0..8i8 {
        for col in 0..8i8 {
            all.push(board.get(&at(row, col)));
        }
    }
    all
}

fn play(board: &mut Board, moves: &[((i8, i8), (i8, i8))]) {
    let mut side = if board.history_len() % 2 == 0 { Color::White } else { Color::Black };
    for (from, to) in moves {
        let start = at(from.0, from.1);
        let end = at(to.0, to.1);
        assert!(board.is_legal_move(&side, &start, &end), "{:?} to {:?}", start, end);
        board.make_move(&start, &end);
        side = side.other();
    }
}

#[test]
fn make_move_relocates_the_piece_and_marks_it_moved() {
    let mut board = Board::new();
    let before = squares(&board);
    board.make_move(&at(1, 4), &at(3, 4));
    let after = squares(&board);
    for i in 0..64 {
        let expected = if i == 8 + 4 {
            None
        } else if i == 3 * 8 + 4 {
            Some(piece(PieceKind::Pawn, Color::White, true))
        } else {
            before[i]
        };
        assert_eq!(after[i], expected);
    }
    assert_eq!(board.history_len(), 1);
}

#[test]
fn make_move_captures_what_stands_on_the_target() {
    let mut board = Board::from_pieces(vec![
        (at(0, 0), piece(PieceKind::Rook, Color::White, false)),
        (at(5, 0), piece(PieceKind::Bishop, Color::Black, true)),
    ]);
    board.make_move(&at(0, 0), &at(5, 0));
    assert_eq!(board.get(&at(5, 0)), Some(piece(PieceKind::Rook, Color::White, true)));
    assert_eq!(board.get(&at(0, 0)), None);
    assert_eq!(squares(&board).iter().filter(|s| s.is_some()).count(), 1);
}

#[test]
fn make_move_from_an_empty_square_changes_nothing() {
    let mut board = Board::new();
    board.make_move(&at(3, 3), &at(4, 3));
    board.make_move(&at(-1, 3), &at(4, 3));
    assert_eq!(squares(&board), squares(&Board::new()));
    assert_eq!(board.history_len(), 0);
}

#[test]
fn make_move_does_not_ask_for_legality() {
    // A rook goes from a1 to h8 through its own pawn.
    let mut board = Board::new();
    board.make_move(&at(0, 0), &at(7, 7));
    assert_eq!(board.get(&at(7, 7)), Some(piece(PieceKind::Rook, Color::White, true)));
    assert_eq!(board.get(&at(0, 0)), None);
    assert_eq!(board.history_len(), 1);
}

#[test]
fn make_moves_makes_them_in_order() {
    let mut board = Board::new();
    board.make_moves(&[(at(1, 4), at(3, 4)), (at(6, 4), at(4, 4)), (at(0, 6), at(2, 5))]);
    let mut one_by_one = Board::new();
    one_by_one.make_move(&at(1, 4), &at(3, 4));
    one_by_one.make_move(&at(6, 4), &at(4, 4));
    one_by_one.make_move(&at(0, 6), &at(2, 5));
    assert_eq!(squares(&board), squares(&one_by_one));
    assert_eq!(board.history_len(), 3);
    assert_eq!(board.get(&at(2, 5)), Some(piece(PieceKind::Knight, Color::White, true)));
    board.make_moves(&[]);
    assert_eq!(board.history_len(), 3);
}

#[test]
fn white_pawn_promotes_on_row_7() {
    for col in 0..8i8 {
        let mut board = Board::from_pieces(vec![
            (at(6, col), piece(PieceKind::Pawn, Color::White, true)),
            (at(0, 0), piece(PieceKind::King, Color::White, true)),
            (at(3, 7), piece(PieceKind::King, Color::Black, true)),
        ]);
        assert!(board.is_legal_move(&Color::White, &at(6, col), &at(7, col)));
        board.make_move(&at(6, col), &at(7, col));
        assert_eq!(board.get(&at(7, col)), Some(piece(PieceKind::Queen, Color::White, true)));
        assert_eq!(board.get(&at(6, col)), None);
    }
}

#[test]
fn black_pawn_promotes_on_row_0() {
    for col in 0..8i8 {
        let mut board = Board::from_pieces(vec![
            (at(1, col), piece(PieceKind::Pawn, Color::Black, true)),
            (at(7, 0), piece(PieceKind::King, Color::Black, true)),
            (at(4, 7), piece(PieceKind::King, Color::White, true)),
        ]);
        assert!(board.is_legal_move(&Color::Black, &at(1, col), &at(0, col)));
        board.make_move(&at(1, col), &at(0, col));
        assert_eq!(board.get(&at(0, col)), Some(piece(PieceKind::Queen, Color::Black, true)));
        assert_eq!(board.get(&at(1, col)), None);
    }
}

#[test]
fn pawn_promotes_when_it_captures_onto_the_last_row() {
    let mut board = Board::from_pieces(vec![
        (at(6, 3), piece(PieceKind::Pawn, Color::White, true)),
        (at(7, 4), piece(PieceKind::Knight, Color::Black, false)),
    ]);
    board.make_move(&at(6, 3), &at(7, 4));
    assert_eq!(board.get(&at(7, 4)), Some(piece(PieceKind::Queen, Color::White, true)));
}

#[test]
fn pawn_short_of_the_last_row_stays_a_pawn() {
    let mut board = Board::from_pieces(vec![(at(5, 3), piece(PieceKind::Pawn, Color::White, true))]);
    board.make_move(&at(5, 3), &at(6, 3));
    assert_eq!(board.get(&at(6, 3)), Some(piece(PieceKind::Pawn, Color::White, true)));
}

#[test]
fn other_pieces_do_not_promote() {
    let mut board = Board::from_pieces(vec![(at(6, 3), piece(PieceKind::Rook, Color::White, false))]);
    board.make_move(&at(6, 3), &at(7, 3));
    assert_eq!(board.get(&at(7, 3)), Some(piece(PieceKind::Rook, Color::White, true)));
}

#[test]
fn castling_queen_side_moves_king_and_rook() {
    let mut board = Board::from_pieces(vec![
        (at(0, 4), piece(PieceKind::King, Color::White, false)),
        (at(0, 0), piece(PieceKind::Rook, Color::White, false)),
        (at(7, 4), piece(PieceKind::King, Color::Black, false)),
    ]);
    assert!(board.is_legal_move(&Color::White, &at(0, 4), &at(0, 2)));
    board.make_move(&at(0, 4), &at(0, 2));
    assert_eq!(board.get(&at(0, 2)), Some(piece(PieceKind::King, Color::White, true)));
    assert_eq!(board.get(&at(0, 3)), Some(piece(PieceKind::Rook, Color::White, true)));
    assert_eq!(board.get(&at(0, 0)), None);
    assert_eq!(board.get(&at(0, 1)), None);
    assert_eq!(board.get(&at(0, 4)), None);
    assert_eq!(squares(&board).iter().filter(|s| s.is_some()).count(), 3);
    assert_eq!(board.history_len(), 1);
}

#[test]
fn castling_king_side_moves_king_and_rook() {
    let mut board = Board::from_pieces(vec![
        (at(7, 4), piece(PieceKind::King, Color::Black, false)),
        (at(7, 7), piece(PieceKind::Rook, Color::Black, false)),
        (at(0, 4), piece(PieceKind::King, Color::White, false)),
    ]);
    assert!(board.is_legal_move(&Color::Black, &at(7, 4), &at(7, 6)));
    board.make_move(&at(7, 4), &at(7, 6));
    assert_eq!(board.get(&at(7, 6)), Some(piece(PieceKind::King, Color::Black, true)));
    assert_eq!(board.get(&at(7, 5)), Some(piece(PieceKind::Rook, Color::Black, true)));
    assert_eq!(board.get(&at(7, 7)), None);
    assert_eq!(board.get(&at(7, 4)), None);
    // Having castled, the king cannot castle again.
    assert!(!board.is_legal_move(&Color::Black, &at(7, 6), &at(7, 4)));
}

#[test]
fn castling_is_lost_once_the_king_has_moved_and_come_back() {
    let mut board = Board::from_pieces(vec![
        (at(0, 4), piece(PieceKind::King, Color::White, false)),
        (at(0, 0), piece(PieceKind::Rook, Color::White, false)),
        (at(7, 4), piece(PieceKind::King, Color::Black, false)),
    ]);
    play(&mut board, &[((0, 4), (1, 4)), ((7, 4), (6, 4)), ((1, 4), (0, 4)), ((6, 4), (7, 4))]);
    assert_eq!(board.get(&at(0, 4)), Some(piece(PieceKind::King, Color::White, true)));
    assert!(!board.is_legal_move(&Color::White, &at(0, 4), &at(0, 2)));
}

#[test]
fn castling_is_lost_once_the_rook_has_moved_and_come_back() {
    let mut board = Board::from_pieces(vec![
        (at(0, 4), piece(PieceKind::King, Color::White, false)),
        (at(0, 0), piece(PieceKind::Rook, Color::White, false)),
        (at(7, 4), piece(PieceKind::King, Color::Black, false)),
    ]);
    play(&mut board, &[((0, 0), (0, 1)), ((7, 4), (6, 4)), ((0, 1), (0, 0)), ((6, 4), (7, 4))]);
    assert!(!board.is_legal_move(&Color::White, &at(0, 4), &at(0, 2)));
}

#[test]
fn en_passant_right_after_the_double_step() {
    let mut board = Board::new();
    play(
        &mut board,
        &[((1, 4), (3, 4)), ((6, 0), (5, 0)), ((3, 4), (4, 4)), ((6, 3), (4, 3))],
    );
    // Black's pawn has just gone from row 6 to row 4 in column 3, beside White's on e5.
    let pawn = piece(PieceKind::Pawn, Color::White, true);
    assert!(board.is_en_passant(&pawn, &at(4, 4), &at(5, 3)));
    assert!(!board.is_en_passant(&pawn, &at(4, 4), &at(5, 5)));
    assert!(!board.follows_pawn_move_pattern(&pawn, &at(4, 4), &at(5, 3)));
    assert!(board.is_legal_move(&Color::White, &at(4, 4), &at(5, 3)));
    board.make_move(&at(4, 4), &at(5, 3));
    assert_eq!(board.get(&at(5, 3)), Some(pawn));
    assert_eq!(board.get(&at(4, 3)), None);
    assert_eq!(board.get(&at(4, 4)), None);
    assert_eq!(squares(&board).iter().filter(|s| s.is_some()).count(), 31);
}

#[test]
fn en_passant_from_either_side_of_the_passed_pawn() {
    for captor_col in [2i8, 4] {
        let mut board = Board::from_pieces(vec![
            (at(4, captor_col), piece(PieceKind::Pawn, Color::White, true)),
            (at(6, 3), piece(PieceKind::Pawn, Color::Black, false)),
            (at(0, 4), piece(PieceKind::King, Color::White, true)),
            (at(7, 7), piece(PieceKind::King, Color::Black, true)),
        ]);
        board.make_move(&at(6, 3), &at(4, 3));
        assert!(board.is_legal_move(&Color::White, &at(4, captor_col), &at(5, 3)));
        board.make_move(&at(4, captor_col), &at(5, 3));
        assert_eq!(board.get(&at(5, 3)), Some(piece(PieceKind::Pawn, Color::White, true)));
        assert_eq!(board.get(&at(4, 3)), None);
    }
}

#[test]
fn en_passant_is_gone_a_move_later() {
    let mut board = Board::new();
    play(
        &mut board,
        &[((1, 4), (3, 4)), ((6, 0), (5, 0)), ((3, 4), (4, 4)), ((6, 3), (4, 3))],
    );
    play(&mut board, &[((1, 7), (2, 7)), ((6, 7), (5, 7))]);
    let pawn = piece(PieceKind::Pawn, Color::White, true);
    assert!(!board.is_en_passant(&pawn, &at(4, 4), &at(5, 3)));
    assert!(!board.is_legal_move(&Color::White, &at(4, 4), &at(5, 3)));
}

#[test]
fn en_passant_for_black_after_whites_double_step() {
    let mut board = Board::new();
    play(
        &mut board,
        &[((1, 0), (2, 0)), ((6, 3), (4, 3)), ((2, 0), (3, 0)), ((4, 3), (3, 3)), ((1, 4), (3, 4))],
    );
    assert!(board.is_legal_move(&Color::Black, &at(3, 3), &at(2, 4)));
    // Not into the column on the other side, where no pawn has passed.
    assert!(!board.is_legal_move(&Color::Black, &at(3, 3), &at(2, 2)));
    board.make_move(&at(3, 3), &at(2, 4));
    assert_eq!(board.get(&at(2, 4)), Some(piece(PieceKind::Pawn, Color::Black, true)));
    assert_eq!(board.get(&at(3, 4)), None);
    assert_eq!(board.get(&at(3, 3)), None);
}

#[test]
fn no_en_passant_after_a_single_step() {
    let mut board = Board::new();
    play(
        &mut board,
        &[((1, 4), (3, 4)), ((6, 3), (5, 3)), ((3, 4), (4, 4)), ((5, 3), (4, 3))],
    );
    let pawn = piece(PieceKind::Pawn, Color::White, true);
    assert!(!board.is_en_passant(&pawn, &at(4, 4), &at(5, 3)));
    assert!(!board.is_legal_move(&Color::White, &at(4, 4), &at(5, 3)));
}

#[test]
fn no_en_passant_with_an_empty_log() {
    let board = Board::from_pieces(vec![
        (at(4, 4), piece(PieceKind::Pawn, Color::White, true)),
        (at(4, 3), piece(PieceKind::Pawn, Color::Black, true)),
    ]);
    let pawn = piece(PieceKind::Pawn, Color::White, true);
    assert!(!board.is_en_passant(&pawn, &at(4, 4), &at(5, 3)));
}

#[test]
fn undo_restores_squares_and_log() {
    let mut board = Board::new();
    play(&mut board, &[((1, 4), (3, 4)), ((6, 4), (4, 4)), ((0, 6), (2, 5))]);
    let before = squares(&board);
    assert!(board.is_legal_move(&Color::Black, &at(7, 1), &at(5, 2)));
    board.make_move(&at(7, 1), &at(5, 2));
    assert_ne!(squares(&board), before);
    assert_eq!(board.history_len(), 4);
    board.undo_move();
    assert_eq!(squares(&board), before);
    assert_eq!(board.history_len(), 3);
}

#[test]
fn undo_of_the_first_move_gives_the_starting_position() {
    let mut board = Board::new();
    board.make_move(&at(1, 3), &at(3, 3));
    board.undo_move();
    assert_eq!(squares(&board), squares(&Board::new()));
    assert_eq!(board.history_len(), 0);
    // The pawn counts as unmoved again.
    assert!(board.is_legal_move(&Color::White, &at(1, 3), &at(3, 3)));
}

#[test]
fn undo_brings_back_a_captured_piece() {
    let mut board = Board::new();
    play(&mut board, &[((1, 4), (3, 4)), ((6, 3), (4, 3))]);
    let before = squares(&board);
    play(&mut board, &[((3, 4), (4, 3))]);
    assert_eq!(squares(&board).iter().filter(|s| s.is_some()).count(), 31);
    board.undo_move();
    assert_eq!(squares(&board), before);
    assert_eq!(board.get(&at(4, 3)), Some(piece(PieceKind::Pawn, Color::Black, true)));
}

#[test]
fn undo_takes_back_an_en_passant_capture() {
    let mut board = Board::new();
    play(
        &mut board,
        &[((1, 4), (3, 4)), ((6, 0), (5, 0)), ((3, 4), (4, 4)), ((6, 3), (4, 3))],
    );
    let before = squares(&board);
    play(&mut board, &[((4, 4), (5, 3))]);
    board.undo_move();
    assert_eq!(squares(&board), before);
    assert_eq!(board.history_len(), 4);
    // The capture is on offer again.
    assert!(board.is_legal_move(&Color::White, &at(4, 4), &at(5, 3)));
}

#[test]
fn undo_takes_back_castling() {
    let mut board = Board::new();
    play(
        &mut board,
        &[
            ((1, 4), (3, 4)),
            ((6, 4), (4, 4)),
            ((0, 6), (2, 5)),
            ((7, 1), (5, 2)),
            ((0, 5), (3, 2)),
            ((7, 5), (4, 2)),
        ],
    );
    let before = squares(&board);
    play(&mut board, &[((0, 4), (0, 6))]);
    assert_eq!(board.get(&at(0, 6)), Some(piece(PieceKind::King, Color::White, true)));
    assert_eq!(board.get(&at(0, 5)), Some(piece(PieceKind::Rook, Color::White, true)));
    assert_eq!(board.get(&at(0, 7)), None);
    board.undo_move();
    assert_eq!(squares(&board), before);
    assert_eq!(board.get(&at(0, 4)), Some(piece(PieceKind::King, Color::White, false)));
    assert_eq!(board.get(&at(0, 7)), Some(piece(PieceKind::Rook, Color::White, false)));
}

#[test]
fn undo_all_the_way_back() {
    let mut board = Board::new();
    let moves = [((1, 4), (3, 4)), ((6, 4), (4, 4)), ((0, 6), (2, 5)), ((7, 1), (5, 2))];
    let mut snapshots = vec![squares(&board)];
    for m in moves {
        play(&mut board, &[m]);
        snapshots.push(squares(&board));
    }
    for n in (0..moves.len()).rev() {
        board.undo_move();
        assert_eq!(squares(&board), snapshots[n]);
        assert_eq!(board.history_len(), n);
    }
}

#[test]
fn undo_replays_from_the_standard_start() {
    // A board set up by hand is not the replay of its log: taking back goes to the
    // standard start, with the logged moves but the last made on it.
    let mut board = Board::from_pieces(vec![(at(3, 3), piece(PieceKind::King, Color::White, true))]);
    board.make_move(&at(3, 3), &at(3, 4));
    board.undo_move();
    assert_eq!(squares(&board), squares(&Board::new()));
    assert_eq!(board.history_len(), 0);
}

#[test]
fn legal_move_rejects_invalid_intents() {
    let board = Board::new();
    assert!(!board.is_legal_move(&Color::White, &at(1, 0), &at(8, 0)));
    assert!(!board.is_legal_move(&Color::White, &at(-1, 0), &at(0, 0)));
    assert!(!board.is_legal_move(&Color::White, &at(3, 3), &at(4, 3)));
    assert!(!board.is_legal_move(&Color::White, &at(6, 0), &at(5, 0)));
    assert!(!board.is_legal_move(&Color::White, &at(0, 0), &at(1, 0)));
    assert!(!board.is_legal_move(&Color::White, &at(1, 4), &at(4, 4)));
    assert!(board.is_legal_move(&Color::White, &at(1, 4), &at(3, 4)));
    assert!(board.is_legal_move(&Color::Black, &at(6, 4), &at(4, 4)));
}

#[test]
fn legal_move_rejects_exposing_the_own_king() {
    let board = Board::from_pieces(vec![
        (at(0, 4), piece(PieceKind::King, Color::White, true)),
        (at(1, 4), piece(PieceKind::Bishop, Color::White, true)),
        (at(7, 4), piece(PieceKind::Rook, Color::Black, true)),
        (at(7, 0), piece(PieceKind::King, Color::Black, true)),
    ]);
    // The bishop is pinned; the king may step aside but not along the rook's column.
    assert!(!board.is_legal_move(&Color::White, &at(1, 4), &at(2, 5)));
    assert!(!board.is_legal_move(&Color::White, &at(1, 4), &at(4, 1)));
    assert!(board.is_legal_move(&Color::White, &at(0, 4), &at(0, 3)));
    assert!(board.is_legal_move(&Color::White, &at(0, 4), &at(1, 5)));
}

#[test]
fn legal_move_rejects_walking_into_check() {
    let board = Board::from_pieces(vec![
        (at(0, 4), piece(PieceKind::King, Color::White, true)),
        (at(7, 3), piece(PieceKind::Rook, Color::Black, true)),
        (at(7, 7), piece(PieceKind::King, Color::Black, true)),
    ]);
    assert!(!board.is_legal_move(&Color::White, &at(0, 4), &at(0, 3)));
    assert!(!board.is_legal_move(&Color::White, &at(0, 4), &at(1, 3)));
    assert!(board.is_legal_move(&Color::White, &at(0, 4), &at(1, 4)));
    assert!(board.is_legal_move(&Color::White, &at(0, 4), &at(0, 5)));
}

#[test]
fn in_check_a_move_must_end_the_check() {
    let board = Board::from_pieces(vec![
        (at(0, 4), piece(PieceKind::King, Color::White, true)),
        (at(1, 0), piece(PieceKind::Rook, Color::White, true)),
        (at(2, 2), piece(PieceKind::Knight, Color::White, true)),
        (at(7, 4), piece(PieceKind::Rook, Color::Black, true)),
        (at(7, 7), piece(PieceKind::King, Color::Black, true)),
    ]);
    assert!(board.king_is_in_check(&Color::White));
    // Blocking the rook's column or stepping out of it ends the check; other moves fail.
    assert!(board.is_legal_move(&Color::White, &at(1, 0), &at(1, 4)));
    assert!(board.is_legal_move(&Color::White, &at(2, 2), &at(3, 4)));
    assert!(board.is_legal_move(&Color::White, &at(0, 4), &at(0, 3)));
    assert!(!board.is_legal_move(&Color::White, &at(1, 0), &at(1, 3)));
    assert!(!board.is_legal_move(&Color::White, &at(2, 2), &at(4, 3)));
    assert!(!board.is_legal_move(&Color::White, &at(0, 4), &at(1, 4)));
}

#[test]
fn legal_moves_never_leave_the_own_king_endangered() {
    let mut boards = vec![Board::new()];
    let mut opened = Board::new();
    play(
        &mut opened,
        &[((1, 4), (3, 4)), ((6, 3), (4, 3)), ((0, 5), (4, 1)), ((7, 1), (5, 2)), ((3, 4), (4, 3))],
    );
    boards.push(opened);
    boards.push(Board::from_pieces(vec![
        (at(0, 4), piece(PieceKind::King, Color::White, false)),
        (at(0, 0), piece(PieceKind::Rook, Color::White, false)),
        (at(0, 7), piece(PieceKind::Rook, Color::White, false)),
        (at(1, 4), piece(PieceKind::Bishop, Color::White, true)),
        (at(7, 4), piece(PieceKind::Rook, Color::Black, true)),
        (at(6, 3), piece(PieceKind::Queen, Color::Black, true)),
        (at(7, 0), piece(PieceKind::King, Color::Black, true)),
    ]));
    let mut accepted = 0;
    for board in &boards {
        for side in [Color::White, Color::Black] {
            for from in 0..64i8 {
                for to in 0..64i8 {
                    let start = at(from / 8, from % 8);
                    let end = at(to / 8, to % 8);
                    if board.is_legal_move(&side, &start, &end) {
                        let mut next = board.clone();
                        next.make_move(&start, &end);
                        assert!(!next.king_is_in_check(&side));
                        let king = next.find_king(&side);
                        assert!(!next.is_endangered(&side, &king));
                        accepted += 1;
                    }
                }
            }
        }
    }
    assert!(accepted > 40);
}

#[test]
fn get_legal_moves_at_the_start() {
    let board = Board::new();
    assert_eq!(board.get_legal_moves(&Color::White, &at(0, 1)), vec![at(2, 0), at(2, 2)]);
    assert_eq!(board.get_legal_moves(&Color::White, &at(1, 4)), vec![at(2, 4), at(3, 4)]);
    assert_eq!(board.get_legal_moves(&Color::Black, &at(6, 4)), vec![at(4, 4), at(5, 4)]);
    assert_eq!(board.get_legal_moves(&Color::Black, &at(7, 6)), vec![at(5, 5), at(5, 7)]);
    assert_eq!(board.get_legal_moves(&Color::White, &at(0, 0)), Vec::<Coord>::new());
    assert_eq!(board.get_legal_moves(&Color::White, &at(0, 4)), Vec::<Coord>::new());
    // The other side's piece, an empty square, a coordinate off the board.
    assert_eq!(board.get_legal_moves(&Color::White, &at(6, 4)), Vec::<Coord>::new());
    assert_eq!(board.get_legal_moves(&Color::White, &at(3, 3)), Vec::<Coord>::new());
    assert_eq!(board.get_legal_moves(&Color::White, &at(8, 8)), Vec::<Coord>::new());
}

#[test]
fn get_legal_moves_of_a_rook_in_row_major_order() {
    let board = Board::from_pieces(vec![
        (at(3, 3), piece(PieceKind::Rook, Color::White, true)),
        (at(3, 5), piece(PieceKind::Pawn, Color::Black, true)),
        (at(1, 3), piece(PieceKind::Pawn, Color::White, true)),
        (at(0, 0), piece(PieceKind::King, Color::White, true)),
        (at(7, 7), piece(PieceKind::King, Color::Black, true)),
    ]);
    assert_eq!(
        board.get_legal_moves(&Color::White, &at(3, 3)),
        vec![
            at(2, 3),
            at(3, 0),
            at(3, 1),
            at(3, 2),
            at(3, 4),
            at(3, 5),
            at(4, 3),
            at(5, 3),
            at(6, 3),
            at(7, 3)
        ]
    );
}

#[test]
fn get_legal_moves_agrees_with_is_legal_move() {
    let mut board = Board::new();
    play(&mut board, &[((1, 4), (3, 4)), ((6, 3), (4, 3)), ((0, 5), (4, 1))]);
    for side in [Color::White, Color::Black] {
        for from in 0..64i8 {
            let start = at(from / 8, from % 8);
            let moves = board.get_legal_moves(&side, &start);
            let mut expected = Vec::new();
            for to in 0..64i8 {
                let end = at(to / 8, to % 8);
                if board.is_legal_move(&side, &start, &end) {
                    expected.push(end);
                }
            }
            assert_eq!(moves, expected);
        }
    }
}

#[test]
fn both_sides_have_legal_moves_at_the_start() {
    let board = Board::new();
    assert!(board.has_legal_moves(&Color::White));
    assert!(board.has_legal_moves(&Color::Black));
}

#[test]
fn fools_mate_is_checkmate() {
    let mut board = Board::new();
    play(&mut board, &[((1, 5), (2, 5)), ((6, 4), (4, 4)), ((1, 6), (3, 6)), ((7, 3), (3, 7))]);
    assert!(!board.has_legal_moves(&Color::White));
    assert!(board.king_is_in_check(&Color::White));
    assert!(board.has_legal_moves(&Color::Black));
    assert!(!board.king_is_in_check(&Color::Black));
}

#[test]
fn back_rank_mate_is_checkmate() {
    let board = Board::from_pieces(vec![
        (at(0, 6), piece(PieceKind::King, Color::White, true)),
        (at(1, 5), piece(PieceKind::Pawn, Color::White, false)),
        (at(1, 6), piece(PieceKind::Pawn, Color::White, false)),
        (at(1, 7), piece(PieceKind::Pawn, Color::White, false)),
        (at(0, 0), piece(PieceKind::Rook, Color::Black, true)),
        (at(7, 4), piece(PieceKind::King, Color::Black, true)),
    ]);
    assert!(!board.has_legal_moves(&Color::White));
    assert!(board.king_is_in_check(&Color::White));
}

#[test]
fn check_with_a_way_out_is_not_checkmate() {
    let board = Board::from_pieces(vec![
        (at(0, 6), piece(PieceKind::King, Color::White, true)),
        (at(1, 5), piece(PieceKind::Pawn, Color::White, false)),
        (at(1, 6), piece(PieceKind::Pawn, Color::White, false)),
        (at(0, 0), piece(PieceKind::Rook, Color::Black, true)),
        (at(7, 4), piece(PieceKind::King, Color::Black, true)),
    ]);
    assert!(board.king_is_in_check(&Color::White));
    assert!(board.has_legal_moves(&Color::White));
    assert_eq!(board.get_legal_moves(&Color::White, &at(0, 6)), vec![at(1, 7)]);
}

#[test]
fn stalemate_has_no_legal_move_and_no_check() {
    let board = Board::from_pieces(vec![
        (at(7, 7), piece(PieceKind::King, Color::Black, true)),
        (at(6, 5), piece(PieceKind::King, Color::White, true)),
        (at(5, 6), piece(PieceKind::Queen, Color::White, true)),
    ]);
    assert!(!board.has_legal_moves(&Color::Black));
    assert!(!board.king_is_in_check(&Color::Black));
    assert!(board.has_legal_moves(&Color::White));
}

#[test]
fn status_tells_checkmate_from_stalemate() {
    let start = Board::new();
    assert_eq!(start.status(&Color::White), Status::Ongoing);
    assert_eq!(start.status(&Color::Black), Status::Ongoing);

    let mut mated = Board::new();
    play(&mut mated, &[((1, 5), (2, 5)), ((6, 4), (4, 4)), ((1, 6), (3, 6)), ((7, 3), (3, 7))]);
    assert_eq!(mated.status(&Color::White), Status::Checkmate);
    assert_eq!(mated.status(&Color::Black), Status::Ongoing);

    let stale = Board::from_pieces(vec![
        (at(7, 7), piece(PieceKind::King, Color::Black, true)),
        (at(6, 5), piece(PieceKind::King, Color::White, true)),
        (at(5, 6), piece(PieceKind::Queen, Color::White, true)),
    ]);
    assert_eq!(stale.status(&Color::Black), Status::Stalemate);
    assert_eq!(stale.status(&Color::White), Status::Ongoing);
}

#[test]
fn status_in_check_with_a_way_out_is_ongoing() {
    let board = Board::from_pieces(vec![
        (at(0, 4), piece(PieceKind::King, Color::White, true)),
        (at(7, 4), piece(PieceKind::Rook, Color::Black, true)),
        (at(7, 7), piece(PieceKind::King, Color::Black, true)),
    ]);
    assert!(board.king_is_in_check(&Color::White));
    assert_eq!(board.status(&Color::White), Status::Ongoing);
}

#[test]
fn try_move_makes_a_legal_move() {
    let mut board = Board::new();
    assert!(board.try_move(&Color::White, &at(1, 4), &at(3, 4)));
    let mut expected = Board::new();
    expected.make_move(&at(1, 4), &at(3, 4));
    assert_eq!(squares(&board), squares(&expected));
    assert_eq!(board.history_len(), 1);
    assert!(!board.king_is_in_check(&Color::White));
}

#[test]
fn try_move_leaves_the_board_alone_otherwise() {
    let mut board = Board::new();
    board.make_move(&at(1, 4), &at(3, 4));
    let before = squares(&board);
    // The other side's pawn, a blocked rook, a square off the board, an empty square.
    assert!(!board.try_move(&Color::White, &at(6, 4), &at(4, 4)));
    assert!(!board.try_move(&Color::Black, &at(7, 0), &at(5, 0)));
    assert!(!board.try_move(&Color::Black, &at(7, 1), &at(9, 2)));
    assert!(!board.try_move(&Color::Black, &at(4, 4), &at(3, 4)));
    assert_eq!(squares(&board), before);
    assert_eq!(board.history_len(), 1);
}

#[test]
fn try_move_refuses_to_expose_the_king() {
    let mut board = Board::from_pieces(vec![
        (at(0, 4), piece(PieceKind::King, Color::White, true)),
        (at(1, 4), piece(PieceKind::Bishop, Color::White, true)),
        (at(7, 4), piece(PieceKind::Rook, Color::Black, true)),
        (at(7, 0), piece(PieceKind::King, Color::Black, true)),
    ]);
    let before = squares(&board);
    assert!(!board.try_move(&Color::White, &at(1, 4), &at(2, 5)));
    assert_eq!(squares(&board), before);
    assert_eq!(board.history_len(), 0);
}

#[test]
fn no_en_passant_when_the_passed_pawn_is_not_beside() {
    // Black's pawn has just advanced two squares to row 4 in column 4. White's pawn on d2
    // steps diagonally into that column, but does not stand beside the passed pawn.
    let mut board = Board::new();
    board.make_moves(&[(at(1, 0), at(2, 0)), (at(6, 4), at(4, 4))]);
    let pawn = piece(PieceKind::Pawn, Color::White, false);
    assert!(!board.is_en_passant(&pawn, &at(1, 3), &at(2, 4)));
    assert!(!board.is_legal_move_no_check(&Color::White, &at(1, 3), &at(2, 4)));
    assert!(!board.is_legal_move(&Color::White, &at(1, 3), &at(2, 4)));
    assert!(!board.is_legal_move(&Color::White, &at(1, 5), &at(2, 4)));
    assert!(!board.try_move(&Color::White, &at(1, 3), &at(2, 4)));
    assert_eq!(board.get(&at(1, 4)), Some(piece(PieceKind::Pawn, Color::White, false)));
    assert_eq!(board.get(&at(4, 4)), Some(piece(PieceKind::Pawn, Color::Black, true)));
}

#[test]
fn no_en_passant_from_any_row_but_that_of_the_passed_pawn() {
    for row in 0..7i8 {
        let mut board = Board::from_pieces(vec![
            (at(row, 3), piece(PieceKind::Pawn, Color::White, true)),
            (at(6, 4), piece(PieceKind::Pawn, Color::Black, false)),
            (at(0, 7), piece(PieceKind::King, Color::White, true)),
            (at(7, 7), piece(PieceKind::King, Color::Black, true)),
        ]);
        board.make_move(&at(6, 4), &at(4, 4));
        let pawn = piece(PieceKind::Pawn, Color::White, true);
        let beside = row == 4;
        assert_eq!(board.is_en_passant(&pawn, &at(row, 3), &at(row + 1, 4)), beside);
        // From row 3 the pawn takes the passed pawn itself, by an ordinary capture.
        let capture = row == 3;
        assert_eq!(
            board.is_legal_move(&Color::White, &at(row, 3), &at(row + 1, 4)),
            beside || capture
        );
    }
}

#[test]
fn a_pawn_never_takes_a_piece_of_its_own_in_passing() {
    // White's king stands beside its pawn, in the column where Black's pawn has just
    // advanced two squares further up the board.
    let mut board = Board::from_pieces(vec![
        (at(1, 3), piece(PieceKind::Pawn, Color::White, false)),
        (at(1, 4), piece(PieceKind::King, Color::White, true)),
        (at(6, 4), piece(PieceKind::Pawn, Color::Black, false)),
        (at(7, 4), piece(PieceKind::King, Color::Black, false)),
    ]);
    board.make_move(&at(6, 4), &at(4, 4));
    assert!(!board.is_legal_move_no_check(&Color::White, &at(1, 3), &at(2, 4)));
    assert!(!board.is_legal_move(&Color::White, &at(1, 3), &at(2, 4)));
    // Made all the same, the move is a plain relocation.
    board.make_move(&at(1, 3), &at(2, 4));
    assert_eq!(board.get(&at(2, 4)), Some(piece(PieceKind::Pawn, Color::White, true)));
    assert_eq!(board.get(&at(1, 4)), Some(piece(PieceKind::King, Color::White, true)));
    assert!(board.has_king(&Color::White));
}

#[test]
fn legality_needs_no_more_than_a_king_of_the_side() {
    // Only White has a king: every query about White is answered.
    let board = Board::from_pieces(vec![
        (at(0, 4), piece(PieceKind::King, Color::White, false)),
        (at(1, 0), piece(PieceKind::Pawn, Color::White, false)),
        (at(6, 1), piece(PieceKind::Pawn, Color::Black, false)),
    ]);
    assert!(board.is_legal_move(&Color::White, &at(1, 0), &at(3, 0)));
    assert!(!board.is_legal_move(&Color::White, &at(1, 0), &at(9, 0)));
    assert!(!board.is_legal_move(&Color::White, &at(6, 1), &at(5, 1)));
    assert_eq!(board.get_legal_moves(&Color::White, &at(1, 0)), vec![at(2, 0), at(3, 0)]);
    assert!(board.has_legal_moves(&Color::White));
    assert_eq!(board.status(&Color::White), Status::Ongoing);
}
