//! Colors, piece kinds and pieces.

use vstd::prelude::*;

verus! {

/// One of the two sides of a game.
#[derive(Clone, Copy, Debug, PartialEq, Eq, Structural)]
pub enum Color {
    White,
    Black,
}

impl Color {
    /// The opposing side.
    pub open spec fn opponent(self) -> Color {
        match self {
            Color::White => Color::Black,
            Color::Black => Color::White,
        }
    }

    /// The row delta of one step forward for this side's pawns.
    pub open spec fn direction(self) -> int {
        match self {
            Color::White => 1,
            Color::Black => -1,
        }
    }

    /// Returns the opposing side.
    pub fn other(&self) -> (c: Color)
        ensures
            c == self.opponent(),
    {
        match self {
            Color::White => Color::Black,
            Color::Black => Color::White,
        }
    }

    /// Returns `1` for White and `-1` for Black: the direction in which
    /// this side's pawns advance along the row axis.
    pub fn forward(&self) -> (d: i8)
        ensures
            d == self.direction(),
    {
        match self {
            Color::White => 1,
            Color::Black => -1,
        }
    }
}

/// The six kinds of chess piece.
#[derive(Clone, Copy, Debug, PartialEq, Eq, Structural)]
pub enum PieceKind {
    Pawn,
    Knight,
    Bishop,
    Rook,
    Queen,
    King,
}

/// A piece on the board.
#[derive(Clone, Copy, Debug, PartialEq, Eq, Structural)]
pub struct Piece {
    pub kind: PieceKind,
    pub color: Color,
    /// Whether the piece has been relocated since the board was set up.
    pub has_moved: bool,
}

impl Piece {
    /// Builds a piece from its three attributes.
    pub fn new(kind: PieceKind, color: Color, has_moved: bool) -> (p: Piece)
        ensures
            p == (Piece { kind, color, has_moved }),
    {
        Piece { kind, color, has_moved }
    }
}

impl PieceKind {
    /// The chess symbol of this kind in the given color: the outlined figures
    /// U+2654 to U+2659 for White, the solid ones U+265A to U+265F for Black,
    /// each range running king, queen, rook, bishop, knight, pawn.
    pub open spec fn glyph(self, color: Color) -> char {
        match self {
            PieceKind::Pawn => match color {
                Color::White => '\u{2659}',
                Color::Black => '\u{265F}',
            },
            PieceKind::Knight => match color {
                Color::White => '\u{2658}',
                Color::Black => '\u{265E}',
            },
            PieceKind::Bishop => match color {
                Color::White => '\u{2657}',
                Color::Black => '\u{265D}',
            },
            PieceKind::Rook => match color {
                Color::White => '\u{2656}',
                Color::Black => '\u{265C}',
            },
            PieceKind::Queen => match color {
                Color::White => '\u{2655}',
                Color::Black => '\u{265B}',
            },
            PieceKind::King => match color {
                Color::White => '\u{2654}',
                Color::Black => '\u{265A}',
            },
        }
    }

    /// The chess symbol of this kind in the given color, as a string of one
    /// character.
    pub fn icon(&self, color: &Color) -> (s: String)
        ensures
            s@ == seq![self.glyph(*color)],
    {
        let symbol: &str = match self {
            PieceKind::Pawn => match color {
                Color::White => {
                    proof {
                        reveal_strlit("\u{2659}");
                    }
                    "\u{2659}"
                },
                Color::Black => {
                    proof {
                        reveal_strlit("\u{265F}");
                    }
                    "\u{265F}"
                },
            },
            PieceKind::Knight => match color {
                Color::White => {
                    proof {
                        reveal_strlit("\u{2658}");
                    }
                    "\u{2658}"
                },
                Color::Black => {
                    proof {
                        reveal_strlit("\u{265E}");
                    }
                    "\u{265E}"
                },
            },
            PieceKind::Bishop => match color {
                Color::White => {
                    proof {
                        reveal_strlit("\u{2657}");
                    }
                    "\u{2657}"
                },
                Color::Black => {
                    proof {
                        reveal_strlit("\u{265D}");
                    }
                    "\u{265D}"
                },
            },
            PieceKind::Rook => match color {
                Color::White => {
                    proof {
                        reveal_strlit("\u{2656}");
                    }
                    "\u{2656}"
                },
                Color::Black => {
                    proof {
                        reveal_strlit("\u{265C}");
                    }
                    "\u{265C}"
                },
            },
            PieceKind::Queen => match color {
                Color::White => {
                    proof {
                        reveal_strlit("\u{2655}");
                    }
                    "\u{2655}"
                },
                Color::Black => {
                    proof {
                        reveal_strlit("\u{265B}");
                    }
                    "\u{265B}"
                },
            },
            PieceKind::King => match color {
                Color::White => {
                    proof {
                        reveal_strlit("\u{2654}");
                    }
                    "\u{2654}"
                },
                Color::Black => {
                    proof {
                        reveal_strlit("\u{265A}");
                    }
                    "\u{265A}"
                },
            },
        };
        assert(symbol@ =~= seq![self.glyph(*color)]);
        symbol.to_owned()
    }
}

impl Piece {
    /// The chess symbol of this piece, as a string of one character.
    pub fn icon(&self) -> (s: String)
        ensures
            s@ == seq![self.kind.glyph(self.color)],
    {
        self.kind.icon(&self.color)
    }
}

} // verus!
