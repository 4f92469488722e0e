//! Position text: rendering a board to the six-field position format
//! (piece placement, side to move, castling rights, en-passant target)
//! and parsing such text back into a well-formed board.

use vstd::prelude::*;

use crate::bitops::{bit64, lemma_bits};
use crate::board::Board;
use crate::file::spec_file_from_value;
use crate::piece::{spec_ascii_char, spec_piece_of_char, Piece};
use crate::repr::Repr;
use crate::player::Player;
use crate::pos::Pos;
use crate::rank::spec_rank_from_value;

verus! {

/// The digit character for a run of `n` empty squares, for `n` in 1..=8.
pub open spec fn spec_run_char(n: int) -> char {
    if n == 1 {
        '1'
    } else if n == 2 {
        '2'
    } else if n == 3 {
        '3'
    } else if n == 4 {
        '4'
    } else if n == 5 {
        '5'
    } else if n == 6 {
        '6'
    } else if n == 7 {
        '7'
    } else {
        '8'
    }
}

/// The placement text of one rank from the given file onward, with
/// `pending` empty squares already seen: empty runs are written as one
/// digit, pieces as their letters.
pub open spec fn spec_fen_rank(b: Board, rank: u8, file: int, pending: int) -> Seq<char>
    decreases 8 - file,
{
    if file >= 8 {
        if pending > 0 {
            seq![spec_run_char(pending)]
        } else {
            Seq::empty()
        }
    } else {
        match b.occ((file * 8 + rank) as u64) {
            None => spec_fen_rank(b, rank, file + 1, pending + 1),
            Some((pl, pc)) => (if pending > 0 {
                seq![spec_run_char(pending)]
            } else {
                Seq::empty()
            }) + seq![spec_ascii_char(pc, pl)] + spec_fen_rank(b, rank, file + 1, 0),
        }
    }
}

/// The placement text of the ranks below `rank_count`, highest rank
/// first, separated by slashes.
pub open spec fn spec_fen_placement(b: Board, rank_count: int) -> Seq<char>
    decreases rank_count,
{
    if rank_count <= 0 {
        Seq::empty()
    } else {
        spec_fen_rank(b, (rank_count - 1) as u8, 0, 0) + (if rank_count - 1 > 0 {
            seq!['/']
        } else {
            Seq::empty()
        }) + spec_fen_placement(b, rank_count - 1)
    }
}

/// The castling-rights field: the letters of the rights still held, or
/// a dash when none remain.
pub open spec fn spec_fen_castling(b: Board) -> Seq<char> {
    let s = (if b.white_kingside_castle {
        seq!['K']
    } else {
        Seq::empty()
    }) + (if b.white_queenside_castle {
        seq!['Q']
    } else {
        Seq::empty()
    }) + (if b.black_kingside_castle {
        seq!['k']
    } else {
        Seq::empty()
    }) + (if b.black_queenside_castle {
        seq!['q']
    } else {
        Seq::empty()
    });
    if s.len() == 0 {
        seq!['-']
    } else {
        s
    }
}

/// The en-passant field: the target square in algebraic notation, or a
/// dash when there is none.
pub open spec fn spec_fen_ep(b: Board) -> Seq<char> {
    match b.en_passant_target {
        None => seq!['-'],
        Some(p) => seq![
            crate::file::spec_file_char(spec_file_from_value(p.spec_file())),
            crate::rank::spec_rank_char(spec_rank_from_value(p.spec_rank())),
        ],
    }
}

/// The full position text: placement, side to move, castling rights,
/// and en-passant target, separated by single spaces.
pub open spec fn spec_fen(b: Board) -> Seq<char> {
    spec_fen_placement(b, 8) + seq![' '] + seq![
        if b.current_player is White {
            'w'
        } else {
            'b'
        },
    ] + seq![' '] + spec_fen_castling(b) + seq![' '] + spec_fen_ep(b)
}

impl Board {
    /// Renders the placement of one rank from the given file onward.
    fn fen_rank(&self, rank: u8, file: u8, pending: u8) -> (r: String)
        requires
            rank < 8,
            file <= 8,
            pending <= file,
        ensures
            r@ == spec_fen_rank(*self, rank, file as int, pending as int),
        decreases 8 - file,
    {
        proof {
            reveal_strlit("1");
            reveal_strlit("2");
            reveal_strlit("3");
            reveal_strlit("4");
            reveal_strlit("5");
            reveal_strlit("6");
            reveal_strlit("7");
            reveal_strlit("8");
            reveal_strlit("");
        }
        let run: &'static str = match pending {
            0 => "",
            1 => "1",
            2 => "2",
            3 => "3",
            4 => "4",
            5 => "5",
            6 => "6",
            7 => "7",
            _ => "8",
        };
        if file >= 8 {
            let r = String::from_str(run);
            proof {
                assert(r@ =~= spec_fen_rank(*self, rank, file as int, pending as int));
            }
            r
        } else {
            match self.get((file * 8 + rank) as usize) {
                None => {
                    let r = self.fen_rank(rank, file + 1, pending + 1);
                    proof {
                        assert(r@ =~= spec_fen_rank(*self, rank, file as int, pending as int));
                    }
                    r
                },
                Some((pl, pc)) => {
                    let mut r = String::from_str(run);
                    r.append(piece_str(pc, pl));
                    r.append(self.fen_rank(rank, file + 1, 0).as_str());
                    proof {
                        assert(r@ =~= spec_fen_rank(*self, rank, file as int, pending as int));
                    }
                    r
                },
            }
        }
    }

    /// Renders the placement of the ranks below `rank_count`, highest
    /// first.
    fn fen_placement(&self, rank_count: u8) -> (r: String)
        requires
            rank_count <= 8,
        ensures
            r@ == spec_fen_placement(*self, rank_count as int),
        decreases rank_count,
    {
        proof {
            reveal_strlit("/");
        }
        if rank_count == 0 {
            let r = String::new();
            proof {
                assert(r@ =~= spec_fen_placement(*self, 0));
            }
            r
        } else {
            let mut r = self.fen_rank(rank_count - 1, 0, 0);
            if rank_count - 1 > 0 {
                r.append("/");
            }
            r.append(self.fen_placement(rank_count - 1).as_str());
            proof {
                assert(r@ =~= spec_fen_placement(*self, rank_count as int));
            }
            r
        }
    }

    /// Renders the position as text: piece placement from rank Eight to
    /// rank One with run-length-encoded empty squares, the side to move,
    /// the castling rights, and the en-passant target.
    #[verifier::rlimit(100)]
    pub fn to_fen(&self) -> (r: String)
        requires
            match self.en_passant_target {
                Some(p) => p.valid(),
                None => true,
            },
        ensures
            r@ == spec_fen(*self),
    {
        proof {
            reveal_strlit(" ");
            reveal_strlit("w");
            reveal_strlit("b");
            reveal_strlit("K");
            reveal_strlit("Q");
            reveal_strlit("k");
            reveal_strlit("q");
            reveal_strlit("-");
        }
        let mut r = self.fen_placement(8);
        r.append(" ");
        r.append(
            match self.current_player {
                Player::White => "w",
                Player::Black => "b",
            },
        );
        r.append(" ");
        let mut any_castle = false;
        if self.white_kingside_castle {
            r.append("K");
            any_castle = true;
        }
        if self.white_queenside_castle {
            r.append("Q");
            any_castle = true;
        }
        if self.black_kingside_castle {
            r.append("k");
            any_castle = true;
        }
        if self.black_queenside_castle {
            r.append("q");
            any_castle = true;
        }
        if !any_castle {
            r.append("-");
        }
        r.append(" ");
        match self.en_passant_target {
            Some(p) => {
                r.append(p.file().as_str());
                r.append(p.rank().as_str());
            },
            None => {
                r.append("-");
            },
        }
        proof {
            assert(r@ =~= spec_fen(*self));
        }
        r
    }

    /// Parses position text into a board: exactly the result of
    /// `spec_parse_fen` on the text. The four modeled fields must appear
    /// in order, separated by single spaces: the placement (eight ranks
    /// of exactly eight squares each, rank Eight first, slash-separated,
    /// empty squares as digit runs), the side to move, the castling
    /// rights, and the en-passant target. After the en-passant field the
    /// text must end, or a space must follow; what stands behind that
    /// space (the unmodeled halfmove and fullmove counters) is ignored.
    /// Any other text is an error, as is a placement that claims one
    /// square twice or leaves a pawn on a back rank; any board returned
    /// is well formed.
    pub fn from_fen(fen: &str) -> (r: Result<Board, FenError>)
        ensures
            r == spec_parse_fen(fen@),
            r matches Ok(b) ==> b.wf(),
    {
        let start = Board {
            current_player: Player::White,
            en_passant_target: None,
            repr: crate::repr::Repr::empty(),
            white_kingside_castle: false,
            white_queenside_castle: false,
            black_kingside_castle: false,
            black_queenside_castle: false,
        };
        proof {
            assert(start == spec_parse_start());
        }
        let (b1, i1) = match parse_placement(fen, 0, 0, 0, start) {
            Ok(p) => p,
            Err(e) => {
                return Err(e);
            },
        };
        let (player, i2) = match parse_side(fen, i1) {
            Ok(p) => p,
            Err(e) => {
                return Err(e);
            },
        };
        let (flags, i3) = match parse_castling(fen, i2, false, false, false, false) {
            Ok(p) => p,
            Err(e) => {
                return Err(e);
            },
        };
        let (ep, i4) = match parse_ep(fen, i3) {
            Ok(p) => p,
            Err(e) => {
                return Err(e);
            },
        };
        // the en-passant field must end the modeled text: anything more
        // needs a separating space, behind which the unmodeled halfmove
        // and fullmove counters are tolerated and ignored
        if i4 < fen.unicode_len() && fen.get_char(i4) != ' ' {
            return Err(FenError::TrailingText);
        }
        let board = Board {
            current_player: player,
            en_passant_target: ep,
            repr: b1.repr,
            white_kingside_castle: flags.0,
            white_queenside_castle: flags.1,
            black_kingside_castle: flags.2,
            black_queenside_castle: flags.3,
        };
        match validate_from(&board.repr, 0) {
            Some(e) => Err(e),
            None => Ok(board),
        }
    }
}

/// The empty position every parse starts from: White to move, no
/// en-passant target, no castling rights, nothing placed.
pub open spec fn spec_parse_start() -> Board {
    Board {
        current_player: Player::White,
        en_passant_target: None,
        repr: crate::repr::spec_empty_repr(),
        white_kingside_castle: false,
        white_queenside_castle: false,
        black_kingside_castle: false,
        black_queenside_castle: false,
    }
}

/// The run length named by a placement digit, or `None` for any other
/// character.
pub open spec fn spec_run_value(ch: char) -> Option<int> {
    match ch {
        '1' => Some(1int),
        '2' => Some(2int),
        '3' => Some(3int),
        '4' => Some(4int),
        '5' => Some(5int),
        '6' => Some(6int),
        '7' => Some(7int),
        '8' => Some(8int),
        _ => None,
    }
}

/// The square filled by the `n`-th placement entry: text reads rank
/// Eight to rank One, each rank from file A to file H.
pub open spec fn spec_reading_square(n: int) -> u64 {
    ((n % 8) * 8 + (7 - n / 8)) as u64
}

/// The board after a run of `n` empty squares written from placement
/// entry `square` onward.
pub open spec fn spec_clear_run(b: Board, square: int, n: int) -> Board
    decreases n,
{
    if n <= 0 {
        b
    } else {
        spec_clear_run(
            Board { repr: b.repr.spec_set(spec_reading_square(square), None), ..b },
            square + 1,
            n - 1,
        )
    }
}

/// Parsing the placement field from text position `i`, with
/// `ranks_done` ranks already completed and `fill` squares written in
/// the current rank. The grammar of the field: each of the eight ranks
/// holds digits and piece letters whose squares sum to exactly eight,
/// ranks are separated by single slashes, and a space ends the field
/// after the eighth rank. Anything else is an error: an unknown
/// character, a rank broken off or overfilled, a ninth rank, or text
/// that ends inside the field.
pub open spec fn spec_parse_placement(
    s: Seq<char>,
    i: int,
    ranks_done: int,
    fill: int,
    b: Board,
) -> Result<(Board, int), FenError>
    decreases s.len() - i,
{
    if i < 0 || i >= s.len() {
        Err(FenError::MissingField)
    } else {
        let ch = s[i];
        if ch == ' ' {
            if ranks_done == 7 && fill == 8 {
                Ok((b, i + 1))
            } else {
                Err(FenError::TooFewSquares)
            }
        } else if ch == '/' {
            if fill < 8 {
                Err(FenError::TooFewSquares)
            } else if ranks_done >= 7 {
                Err(FenError::TooManySquares)
            } else {
                spec_parse_placement(s, i + 1, ranks_done + 1, 0, b)
            }
        } else {
            match spec_run_value(ch) {
                Some(n) => if 0 <= fill && fill + n <= 8 && 0 <= ranks_done <= 7 {
                    spec_parse_placement(
                        s,
                        i + 1,
                        ranks_done,
                        fill + n,
                        spec_clear_run(b, ranks_done * 8 + fill, n),
                    )
                } else {
                    Err(FenError::TooManySquares)
                },
                None => match spec_piece_of_char(ch) {
                    None => Err(FenError::BadPiece),
                    Some((pl, pc)) => if 0 <= fill < 8 && 0 <= ranks_done <= 7 {
                        spec_parse_placement(
                            s,
                            i + 1,
                            ranks_done,
                            fill + 1,
                            Board {
                                repr: b.repr.spec_set(
                                    spec_reading_square(ranks_done * 8 + fill),
                                    Some((pl, pc)),
                                ),
                                ..b
                            },
                        )
                    } else {
                        Err(FenError::TooManySquares)
                    },
                },
            }
        }
    }
}

/// Parsing the side-to-move field: a `w` or `b` followed by a space.
pub open spec fn spec_parse_side(s: Seq<char>, i: int) -> Result<(Player, int), FenError> {
    if i < 0 || i >= s.len() {
        Err(FenError::MissingField)
    } else {
        let player = if s[i] == 'w' {
            Some(Player::White)
        } else if s[i] == 'b' {
            Some(Player::Black)
        } else {
            None
        };
        match player {
            None => Err(FenError::BadPlayer),
            Some(pl) => if i + 1 < s.len() && s[i + 1] == ' ' {
                Ok((pl, i + 2))
            } else {
                Err(FenError::MissingField)
            },
        }
    }
}

/// Parsing the castling field: right letters accumulate until a space
/// ends the field; a dash, which must be followed by a space, stands
/// for no rights.
pub open spec fn spec_parse_castling(
    s: Seq<char>,
    i: int,
    wk: bool,
    wq: bool,
    bk: bool,
    bq: bool,
) -> Result<((bool, bool, bool, bool), int), FenError>
    decreases s.len() - i,
{
    if i < 0 || i >= s.len() {
        Err(FenError::MissingField)
    } else if s[i] == '-' {
        if i + 1 < s.len() && s[i + 1] == ' ' {
            Ok(((wk, wq, bk, bq), i + 2))
        } else {
            Err(FenError::MissingField)
        }
    } else if s[i] == ' ' {
        Ok(((wk, wq, bk, bq), i + 1))
    } else if s[i] == 'K' {
        spec_parse_castling(s, i + 1, true, wq, bk, bq)
    } else if s[i] == 'Q' {
        spec_parse_castling(s, i + 1, wk, true, bk, bq)
    } else if s[i] == 'k' {
        spec_parse_castling(s, i + 1, wk, wq, true, bq)
    } else if s[i] == 'q' {
        spec_parse_castling(s, i + 1, wk, wq, bk, true)
    } else {
        Err(FenError::BadCastling)
    }
}

/// Parsing the en-passant field: a dash for none, or a file letter and
/// rank digit naming the target square; the index after the field is
/// returned with it.
pub open spec fn spec_parse_ep(s: Seq<char>, i: int) -> Result<(Option<Pos>, int), FenError> {
    if i < 0 || i >= s.len() {
        Err(FenError::MissingField)
    } else if s[i] == '-' {
        Ok((None, i + 1))
    } else {
        match crate::file::spec_file_from_char(s[i]) {
            None => Err(FenError::BadSquare),
            Some(f) => if i + 1 >= s.len() {
                Err(FenError::BadSquare)
            } else {
                match crate::rank::spec_rank_from_char(s[i + 1]) {
                    None => Err(FenError::BadSquare),
                    Some(k) => Ok(
                        (
                            Some(
                                Pos {
                                    pos: (crate::file::spec_file_value(f) * 8
                                        + crate::rank::spec_rank_value(k)) as u8,
                                },
                            ),
                            i + 2,
                        ),
                    ),
                }
            },
        }
    }
}

/// Scanning the parsed placement from square `i` upward: the first
/// square claimed twice is reported, then the first pawn on a back
/// rank; `None` when every remaining square is sound.
pub open spec fn spec_validate_from(r: Repr, i: int) -> Option<FenError>
    decreases 64 - i,
{
    if i < 0 || i >= 64 {
        None
    } else if r.claim_count(i as u64) > 1 {
        Some(FenError::DoubledSquare)
    } else if bit64(r.white_pawns.value, i as u64) && i % 8 == 7 {
        Some(FenError::PawnOnBackRank)
    } else if bit64(r.black_pawns.value, i as u64) && i % 8 == 0 {
        Some(FenError::PawnOnBackRank)
    } else {
        spec_validate_from(r, i + 1)
    }
}

/// Parsing whole position text: the four fields in order, then the
/// placement scan; the parsed board is returned only when all succeed.
pub open spec fn spec_parse_fen(s: Seq<char>) -> Result<Board, FenError> {
    match spec_parse_placement(s, 0, 0, 0, spec_parse_start()) {
        Err(e) => Err(e),
        Ok((b1, i1)) => match spec_parse_side(s, i1) {
            Err(e) => Err(e),
            Ok((pl, i2)) => match spec_parse_castling(s, i2, false, false, false, false) {
                Err(e) => Err(e),
                Ok((fl, i3)) => match spec_parse_ep(s, i3) {
                    Err(e) => Err(e),
                    Ok((ep, i4)) => if i4 < s.len() && s[i4] != ' ' {
                        Err(FenError::TrailingText)
                    } else {
                        let b = Board {
                            current_player: pl,
                            en_passant_target: ep,
                            repr: b1.repr,
                            white_kingside_castle: fl.0,
                            white_queenside_castle: fl.1,
                            black_kingside_castle: fl.2,
                            black_queenside_castle: fl.3,
                        };
                        match spec_validate_from(b.repr, 0) {
                            Some(e) => Err(e),
                            None => Ok(b),
                        }
                    },
                },
            },
        },
    }
}

/// Parses the placement field, mirroring `spec_parse_placement`.
fn parse_placement(fen: &str, idx: usize, ranks_done: u8, fill: u8, board: Board) -> (r: Result<
    (Board, usize),
    FenError,
>)
    requires
        ranks_done <= 7,
        fill <= 8,
        board.repr.white_king.valid(),
        board.repr.black_king.valid(),
    ensures
        r matches Ok(p) ==> spec_parse_placement(
            fen@,
            idx as int,
            ranks_done as int,
            fill as int,
            board,
        ) == Ok::<(Board, int), FenError>((p.0, p.1 as int)) && p.0.repr.white_king.valid()
            && p.0.repr.black_king.valid() && p.0.en_passant_target == board.en_passant_target
            && p.1 <= fen@.len(),
        r matches Err(e) ==> spec_parse_placement(
            fen@,
            idx as int,
            ranks_done as int,
            fill as int,
            board,
        ) == Err::<(Board, int), FenError>(e),
    decreases fen@.len() - idx,
{
    let len = fen.unicode_len();
    if idx >= len {
        return Err(FenError::MissingField);
    }
    let ch = fen.get_char(idx);
    if ch == ' ' {
        if ranks_done == 7 && fill == 8 {
            return Ok((board, idx + 1));
        } else {
            return Err(FenError::TooFewSquares);
        }
    }
    if ch == '/' {
        if fill < 8 {
            return Err(FenError::TooFewSquares);
        } else if ranks_done >= 7 {
            return Err(FenError::TooManySquares);
        } else {
            return parse_placement(fen, idx + 1, ranks_done + 1, 0, board);
        }
    }
    let run: Option<u8> = match ch {
        '1' => Some(1),
        '2' => Some(2),
        '3' => Some(3),
        '4' => Some(4),
        '5' => Some(5),
        '6' => Some(6),
        '7' => Some(7),
        '8' => Some(8),
        _ => None,
    };
    match run {
        Some(n) => {
            if fill <= 8 - n {
                let cleared = clear_run(board, ranks_done * 8 + fill, n);
                parse_placement(fen, idx + 1, ranks_done, fill + n, cleared)
            } else {
                Err(FenError::TooManySquares)
            }
        },
        None => match Piece::from_ascii_char(ch) {
            None => Err(FenError::BadPiece),
            Some((pl, pc)) => {
                if fill < 8 {
                    let mut b2 = board;
                    b2.setp(reading_order(ranks_done * 8 + fill), Some((pl, pc)));
                    parse_placement(fen, idx + 1, ranks_done, fill + 1, b2)
                } else {
                    Err(FenError::TooManySquares)
                }
            },
        },
    }
}

/// Writes a run of `n` empty squares from placement entry `square`
/// onward, mirroring `spec_clear_run`.
fn clear_run(board: Board, square: u8, n: u8) -> (r: Board)
    requires
        square + n <= 64,
    ensures
        r == spec_clear_run(board, square as int, n as int),
        r.repr.white_king == board.repr.white_king,
        r.repr.black_king == board.repr.black_king,
        r.en_passant_target == board.en_passant_target,
    decreases n,
{
    if n == 0 {
        board
    } else {
        let mut b2 = board;
        b2.setp(reading_order(square), None);
        clear_run(b2, square + 1, n - 1)
    }
}

/// Parses the side-to-move field, mirroring `spec_parse_side`.
fn parse_side(fen: &str, idx: usize) -> (r: Result<(Player, usize), FenError>)
    ensures
        r matches Ok(p) ==> spec_parse_side(fen@, idx as int) == Ok::<(Player, int), FenError>(
            (p.0, p.1 as int),
        ) && p.1 <= fen@.len(),
        r matches Err(e) ==> spec_parse_side(fen@, idx as int) == Err::<(Player, int), FenError>(
            e,
        ),
{
    let len = fen.unicode_len();
    if idx >= len {
        return Err(FenError::MissingField);
    }
    let ch = fen.get_char(idx);
    let player = match ch {
        'w' => Player::White,
        'b' => Player::Black,
        _ => {
            return Err(FenError::BadPlayer);
        },
    };
    if idx + 1 < len && fen.get_char(idx + 1) == ' ' {
        Ok((player, idx + 2))
    } else {
        Err(FenError::MissingField)
    }
}

/// Parses the castling field, mirroring `spec_parse_castling`.
fn parse_castling(fen: &str, idx: usize, wk: bool, wq: bool, bk: bool, bq: bool) -> (r: Result<
    ((bool, bool, bool, bool), usize),
    FenError,
>)
    ensures
        r matches Ok(p) ==> spec_parse_castling(fen@, idx as int, wk, wq, bk, bq) == Ok::<
            ((bool, bool, bool, bool), int),
            FenError,
        >((p.0, p.1 as int)) && p.1 <= fen@.len(),
        r matches Err(e) ==> spec_parse_castling(fen@, idx as int, wk, wq, bk, bq) == Err::<
            ((bool, bool, bool, bool), int),
            FenError,
        >(e),
    decreases fen@.len() - idx,
{
    let len = fen.unicode_len();
    if idx >= len {
        return Err(FenError::MissingField);
    }
    let ch = fen.get_char(idx);
    match ch {
        '-' => {
            if idx + 1 < len && fen.get_char(idx + 1) == ' ' {
                Ok(((wk, wq, bk, bq), idx + 2))
            } else {
                Err(FenError::MissingField)
            }
        },
        ' ' => Ok(((wk, wq, bk, bq), idx + 1)),
        'K' => parse_castling(fen, idx + 1, true, wq, bk, bq),
        'Q' => parse_castling(fen, idx + 1, wk, true, bk, bq),
        'k' => parse_castling(fen, idx + 1, wk, wq, true, bq),
        'q' => parse_castling(fen, idx + 1, wk, wq, bk, true),
        _ => Err(FenError::BadCastling),
    }
}

/// Parses the en-passant field, mirroring `spec_parse_ep`.
fn parse_ep(fen: &str, idx: usize) -> (r: Result<(Option<Pos>, usize), FenError>)
    ensures
        r matches Ok(p) ==> spec_parse_ep(fen@, idx as int) == Ok::<(Option<Pos>, int), FenError>(
            (p.0, p.1 as int),
        ) && (p.0 matches Some(q) ==> q.valid()) && p.1 <= fen@.len(),
        r matches Err(e) ==> spec_parse_ep(fen@, idx as int) == Err::<
            (Option<Pos>, int),
            FenError,
        >(e),
{
    let len = fen.unicode_len();
    if idx >= len {
        return Err(FenError::MissingField);
    }
    let ch = fen.get_char(idx);
    if ch == '-' {
        return Ok((None, idx + 1));
    }
    let file = match crate::file::File::from_char(ch) {
        Some(f) => f,
        None => {
            return Err(FenError::BadSquare);
        },
    };
    if idx + 1 >= len {
        return Err(FenError::BadSquare);
    }
    let rank = match crate::rank::Rank::from_char(fen.get_char(idx + 1)) {
        Some(k) => k,
        None => {
            return Err(FenError::BadSquare);
        },
    };
    Ok((Some(Pos::new(file, rank)), idx + 2))
}

/// Scans the parsed placement from square `i` upward, mirroring
/// `spec_validate_from`; a `None` result carries the well-formedness of
/// every remaining square.
fn validate_from(r: &Repr, i: u64) -> (res: Option<FenError>)
    requires
        i <= 64,
    ensures
        res == spec_validate_from(*r, i as int),
        res is None ==> forall|j: u64| i <= j < 64 ==> #[trigger] r.claim_count(j) <= 1,
        res is None ==> forall|j: u64|
            i <= j < 64 && #[trigger] bit64(r.white_pawns.value, j) ==> j % 8 != 7,
        res is None ==> forall|j: u64|
            i <= j < 64 && #[trigger] bit64(r.black_pawns.value, j) ==> j % 8 != 0,
    decreases 64 - i,
{
    if i >= 64 {
        return None;
    }
    let claims: u32 = bit_at(r.white_pawns.value, i) + bit_at(r.black_pawns.value, i) + bit_at(
        r.white_knights.value,
        i,
    ) + bit_at(r.black_knights.value, i) + bit_at(r.white_bishops.value, i) + bit_at(
        r.black_bishops.value,
        i,
    ) + bit_at(r.white_rooks.value, i) + bit_at(r.black_rooks.value, i) + bit_at(
        r.white_queens.value,
        i,
    ) + bit_at(r.black_queens.value, i) + (if r.white_king.value() as u64 == i {
        1u32
    } else {
        0u32
    }) + (if r.black_king.value() as u64 == i {
        1u32
    } else {
        0u32
    });
    proof {
        assert(claims as int == r.claim_count(i));
    }
    if claims > 1 {
        return Some(FenError::DoubledSquare);
    }
    if bit_at(r.white_pawns.value, i) == 1 && i % 8 == 7 {
        return Some(FenError::PawnOnBackRank);
    }
    if bit_at(r.black_pawns.value, i) == 1 && i % 8 == 0 {
        return Some(FenError::PawnOnBackRank);
    }
    validate_from(r, i + 1)
}

/// Why position text was rejected.
#[derive(Debug, Clone, Copy, PartialEq, Eq, Structural)]
pub enum FenError {
    TooManySquares,
    TooFewSquares,
    BadPiece,
    BadPlayer,
    BadCastling,
    BadSquare,
    MissingField,
    TrailingText,
    DoubledSquare,
    PawnOnBackRank,
}

/// Returns one when bit `i` of `v` is set, and zero otherwise.
fn bit_at(v: u64, i: u64) -> (r: u32)
    requires
        i < 64,
    ensures
        r == (if bit64(v, i) {
            1u32
        } else {
            0u32
        }),
{
    proof {
        lemma_bits();
    }
    if (v >> i) & 1 == 1 {
        1
    } else {
        0
    }
}

/// The square filled by the `n`-th placement entry: text reads rank
/// Eight to rank One, each rank from file A to file H.
fn reading_order(n: u8) -> (r: Pos)
    requires
        n < 64,
    ensures
        r.valid(),
        r.pos == spec_reading_square(n as int),
{
    let rank = 7 - n / 8;
    let file = n % 8;
    Pos::from_value(file * 8 + rank)
}

/// Returns the letter of a piece owned by a player, as a string.
fn piece_str(piece: Piece, player: Player) -> (r: &'static str)
    ensures
        r@ == seq![spec_ascii_char(piece, player)],
{
    let r = match (player, piece) {
        (Player::White, Piece::Pawn) => "P",
        (Player::White, Piece::Knight) => "N",
        (Player::White, Piece::Bishop) => "B",
        (Player::White, Piece::Rook) => "R",
        (Player::White, Piece::Queen) => "Q",
        (Player::White, Piece::King) => "K",
        (Player::Black, Piece::Pawn) => "p",
        (Player::Black, Piece::Knight) => "n",
        (Player::Black, Piece::Bishop) => "b",
        (Player::Black, Piece::Rook) => "r",
        (Player::Black, Piece::Queen) => "q",
        (Player::Black, Piece::King) => "k",
    };
    proof {
        reveal_strlit("P");
        reveal_strlit("N");
        reveal_strlit("B");
        reveal_strlit("R");
        reveal_strlit("Q");
        reveal_strlit("K");
        reveal_strlit("p");
        reveal_strlit("n");
        reveal_strlit("b");
        reveal_strlit("r");
        reveal_strlit("q");
        reveal_strlit("k");
        assert(r@ =~= seq![spec_ascii_char(piece, player)]);
    }
    r
}

/// One grid cell's character: the occupant's letter, or a dot for an
/// empty square.
pub open spec fn spec_grid_cell(b: Board, rank: u8, file: int) -> char {
    match b.occ((file * 8 + rank) as u64) {
        None => '.',
        Some((pl, pc)) => spec_ascii_char(pc, pl),
    }
}

/// The cells of one grid row from the given file onward, each framed as
/// a column of the diagram.
pub open spec fn spec_grid_cells(b: Board, rank: u8, file: int) -> Seq<char>
    decreases 8 - file,
{
    if file >= 8 {
        Seq::empty()
    } else {
        " "@ + seq![spec_grid_cell(b, rank, file)] + " |"@ + spec_grid_cells(b, rank, file + 1)
    }
}

/// The grid rows for the ranks below `rank_count`, highest first, each
/// followed by a horizontal rule.
pub open spec fn spec_grid_rows(b: Board, rank_count: int) -> Seq<char>
    decreases rank_count,
{
    if rank_count <= 0 {
        Seq::empty()
    } else {
        "|"@ + spec_grid_cells(b, (rank_count - 1) as u8, 0)
            + "\n+---+---+---+---+---+---+---+---+\n"@ + spec_grid_rows(b, rank_count - 1)
    }
}

/// The whole board diagram: a horizontal rule, then one framed row per
/// rank from Eight down to One.
pub open spec fn spec_grid(b: Board) -> Seq<char> {
    "+---+---+---+---+---+---+---+---+\n"@ + spec_grid_rows(b, 8)
}

impl Board {
    /// Renders the cells of one grid row from the given file onward.
    fn grid_cells(&self, rank: u8, file: u8) -> (r: String)
        requires
            rank < 8,
            file <= 8,
        ensures
            r@ == spec_grid_cells(*self, rank, file as int),
        decreases 8 - file,
    {
        if file >= 8 {
            let r = String::new();
            proof {
                assert(r@ =~= spec_grid_cells(*self, rank, file as int));
            }
            r
        } else {
            let mut r = String::from_str(" ");
            match self.get((file * 8 + rank) as usize) {
                None => {
                    r.append(".");
                    proof {
                        reveal_strlit(".");
                        assert(seq![spec_grid_cell(*self, rank, file as int)] =~= "."@);
                    }
                },
                Some((pl, pc)) => {
                    r.append(piece_str(pc, pl));
                },
            }
            r.append(" |");
            r.append(self.grid_cells(rank, file + 1).as_str());
            proof {
                assert(r@ =~= spec_grid_cells(*self, rank, file as int));
            }
            r
        }
    }

    /// Renders the grid rows for the ranks below `rank_count`, highest
    /// first.
    fn grid_rows(&self, rank_count: u8) -> (r: String)
        requires
            rank_count <= 8,
        ensures
            r@ == spec_grid_rows(*self, rank_count as int),
        decreases rank_count,
    {
        if rank_count == 0 {
            let r = String::new();
            proof {
                assert(r@ =~= spec_grid_rows(*self, 0));
            }
            r
        } else {
            let mut r = String::from_str("|");
            r.append(self.grid_cells(rank_count - 1, 0).as_str());
            r.append("\n+---+---+---+---+---+---+---+---+\n");
            r.append(self.grid_rows(rank_count - 1).as_str());
            proof {
                assert(r@ =~= spec_grid_rows(*self, rank_count as int));
            }
            r
        }
    }

    /// Renders the position as a framed text diagram, one row per rank
    /// from Eight down to One, White's pieces in uppercase.
    pub fn to_string(&self) -> (r: String)
        ensures
            r@ == spec_grid(*self),
    {
        let mut r = String::from_str("+---+---+---+---+---+---+---+---+\n");
        r.append(self.grid_rows(8).as_str());
        proof {
            assert(r@ =~= spec_grid(*self));
        }
        r
    }
}

} // verus!
