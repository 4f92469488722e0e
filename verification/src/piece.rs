use vstd::prelude::*;

use crate::player::Player;

verus! {

/// A kind of chess piece.
#[derive(Debug, Clone, Copy, PartialEq, Eq, Structural)]
pub enum Piece {
    Pawn,
    Knight,
    Bishop,
    Rook,
    Queen,
    King,
}

/// The piece arrangement of the back rank in the initial position,
/// from file A to file H.
pub const HOME_ROW: [Piece; 8] = [
    Piece::Rook,
    Piece::Knight,
    Piece::Bishop,
    Piece::Queen,
    Piece::King,
    Piece::Bishop,
    Piece::Knight,
    Piece::Rook,
];

/// The letter used for a piece of the given player in board diagrams and
/// position text: uppercase for White, lowercase for Black.
pub open spec fn spec_ascii_char(piece: Piece, player: Player) -> char {
    match (player, piece) {
        (Player::White, Piece::Pawn) => 'P',
        (Player::White, Piece::Knight) => 'N',
        (Player::White, Piece::Bishop) => 'B',
        (Player::White, Piece::Rook) => 'R',
        (Player::White, Piece::Queen) => 'Q',
        (Player::White, Piece::King) => 'K',
        (Player::Black, Piece::Pawn) => 'p',
        (Player::Black, Piece::Knight) => 'n',
        (Player::Black, Piece::Bishop) => 'b',
        (Player::Black, Piece::Rook) => 'r',
        (Player::Black, Piece::Queen) => 'q',
        (Player::Black, Piece::King) => 'k',
    }
}

/// The chess-glyph character for a piece owned by a player.
pub open spec fn spec_emoji(piece: Piece, player: Player) -> char {
    match (player, piece) {
        (Player::White, Piece::Pawn) => '\u{2659}',
        (Player::White, Piece::Knight) => '\u{2658}',
        (Player::White, Piece::Bishop) => '\u{2657}',
        (Player::White, Piece::Rook) => '\u{2656}',
        (Player::White, Piece::Queen) => '\u{2655}',
        (Player::White, Piece::King) => '\u{2654}',
        (Player::Black, Piece::Pawn) => '\u{265F}',
        (Player::Black, Piece::Knight) => '\u{265E}',
        (Player::Black, Piece::Bishop) => '\u{265D}',
        (Player::Black, Piece::Rook) => '\u{265C}',
        (Player::Black, Piece::Queen) => '\u{265B}',
        (Player::Black, Piece::King) => '\u{265A}',
    }
}

/// The inverse of `spec_ascii_char`: the piece and owner denoted by a
/// letter, or `None` for any other character.
pub open spec fn spec_piece_of_char(ch: char) -> Option<(Player, Piece)> {
    match ch {
        'P' => Some((Player::White, Piece::Pawn)),
        'N' => Some((Player::White, Piece::Knight)),
        'B' => Some((Player::White, Piece::Bishop)),
        'R' => Some((Player::White, Piece::Rook)),
        'Q' => Some((Player::White, Piece::Queen)),
        'K' => Some((Player::White, Piece::King)),
        'p' => Some((Player::Black, Piece::Pawn)),
        'n' => Some((Player::Black, Piece::Knight)),
        'b' => Some((Player::Black, Piece::Bishop)),
        'r' => Some((Player::Black, Piece::Rook)),
        'q' => Some((Player::Black, Piece::Queen)),
        'k' => Some((Player::Black, Piece::King)),
        _ => None,
    }
}

impl Piece {
    /// Returns the piece's letter as used in algebraic notation.
    /// Pawns return an empty string.
    pub fn notation(self) -> (r: &'static str)
        ensures
            self is Pawn ==> r@ == ""@,
            self is Knight ==> r@ == "N"@,
            self is Bishop ==> r@ == "B"@,
            self is Rook ==> r@ == "R"@,
            self is Queen ==> r@ == "Q"@,
            self is King ==> r@ == "K"@,
    {
        match self {
            Piece::Pawn => "",
            Piece::Knight => "N",
            Piece::Bishop => "B",
            Piece::Rook => "R",
            Piece::Queen => "Q",
            Piece::King => "K",
        }
    }

    /// Returns the piece's English name.
    pub fn name(self) -> (r: &'static str)
        ensures
            self is Pawn ==> r@ == "Pawn"@,
            self is Knight ==> r@ == "Knight"@,
            self is Bishop ==> r@ == "Bishop"@,
            self is Rook ==> r@ == "Rook"@,
            self is Queen ==> r@ == "Queen"@,
            self is King ==> r@ == "King"@,
    {
        match self {
            Piece::Pawn => "Pawn",
            Piece::Knight => "Knight",
            Piece::Bishop => "Bishop",
            Piece::Rook => "Rook",
            Piece::Queen => "Queen",
            Piece::King => "King",
        }
    }

    /// Returns the letter for this piece owned by the given player:
    /// uppercase for White, lowercase for Black.
    pub fn ascii_char(self, player: Player) -> (r: char)
        ensures
            r == spec_ascii_char(self, player),
    {
        match (player, self) {
            (Player::White, Piece::Pawn) => 'P',
            (Player::White, Piece::Knight) => 'N',
            (Player::White, Piece::Bishop) => 'B',
            (Player::White, Piece::Rook) => 'R',
            (Player::White, Piece::Queen) => 'Q',
            (Player::White, Piece::King) => 'K',
            (Player::Black, Piece::Pawn) => 'p',
            (Player::Black, Piece::Knight) => 'n',
            (Player::Black, Piece::Bishop) => 'b',
            (Player::Black, Piece::Rook) => 'r',
            (Player::Black, Piece::Queen) => 'q',
            (Player::Black, Piece::King) => 'k',
        }
    }

    /// Returns the player and piece denoted by a piece letter, or `None`
    /// if the character is not a piece letter.
    pub fn from_ascii_char(ch: char) -> (r: Option<(Player, Piece)>)
        ensures
            r == spec_piece_of_char(ch),
    {
        match ch {
            'P' => Some((Player::White, Piece::Pawn)),
            'N' => Some((Player::White, Piece::Knight)),
            'B' => Some((Player::White, Piece::Bishop)),
            'R' => Some((Player::White, Piece::Rook)),
            'Q' => Some((Player::White, Piece::Queen)),
            'K' => Some((Player::White, Piece::King)),
            'p' => Some((Player::Black, Piece::Pawn)),
            'n' => Some((Player::Black, Piece::Knight)),
            'b' => Some((Player::Black, Piece::Bishop)),
            'r' => Some((Player::Black, Piece::Rook)),
            'q' => Some((Player::Black, Piece::Queen)),
            'k' => Some((Player::Black, Piece::King)),
            _ => None,
        }
    }

    /// Returns the chess-glyph character for this piece owned by the
    /// given player.
    pub fn emoji(self, player: Player) -> (r: char)
        ensures
            r == spec_emoji(self, player),
    {
        match (player, self) {
            (Player::White, Piece::Pawn) => '\u{2659}',
            (Player::White, Piece::Knight) => '\u{2658}',
            (Player::White, Piece::Bishop) => '\u{2657}',
            (Player::White, Piece::Rook) => '\u{2656}',
            (Player::White, Piece::Queen) => '\u{2655}',
            (Player::White, Piece::King) => '\u{2654}',
            (Player::Black, Piece::Pawn) => '\u{265F}',
            (Player::Black, Piece::Knight) => '\u{265E}',
            (Player::Black, Piece::Bishop) => '\u{265D}',
            (Player::Black, Piece::Rook) => '\u{265C}',
            (Player::Black, Piece::Queen) => '\u{265B}',
            (Player::Black, Piece::King) => '\u{265A}',
        }
    }
}

} // verus!
