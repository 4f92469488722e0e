use vstd::prelude::*;

use crate::board::Board;
use crate::piece::Piece;
use crate::pos::Pos;

verus! {

/// A chess move: the origin and destination squares, and the piece a
/// pawn becomes when the move reaches the far rank. Castling is encoded
/// as the two-square king move; the rook relocation is implied.
#[derive(Debug, Clone, Copy, PartialEq, Eq)]
pub struct Move {
    pub from: Pos,
    pub to: Pos,
    pub promotion: Option<Piece>,
}

impl Move {
    /// Both squares of the move are on the board.
    pub open spec fn valid(self) -> bool {
        self.from.valid() && self.to.valid()
    }

    /// Returns whether this move lands on an occupied square. The
    /// en-passant capture is not counted: its destination is empty.
    pub fn is_capture(self, board: &Board) -> (r: bool)
        requires
            self.to.valid(),
        ensures
            r == (board.occ(self.to.pos as u64) is Some),
    {
        board.getp(self.to).is_some()
    }
}

/// The algebraic-notation letter sequence of a piece; pawns have none.
pub open spec fn spec_notation(piece: Piece) -> Seq<char> {
    match piece {
        Piece::Pawn => ""@,
        Piece::Knight => "N"@,
        Piece::Bishop => "B"@,
        Piece::Rook => "R"@,
        Piece::Queen => "Q"@,
        Piece::King => "K"@,
    }
}

/// The file letter of a square, as a one-character sequence.
pub open spec fn spec_file_seq(p: Pos) -> Seq<char> {
    seq![crate::file::spec_file_char(crate::file::spec_file_from_value(p.spec_file()))]
}

/// The rank digit of a square, as a one-character sequence.
pub open spec fn spec_rank_seq(p: Pos) -> Seq<char> {
    seq![crate::rank::spec_rank_char(crate::rank::spec_rank_from_value(p.spec_rank()))]
}

/// The move denoted by transport text: exactly four or five characters,
/// a file letter and rank digit for the origin and the destination, and
/// an optional promotion-piece letter; `None` for any other string.
pub open spec fn spec_from_uci(s: Seq<char>) -> Option<Move> {
    if s.len() != 4 && s.len() != 5 {
        None
    } else {
        match (
            crate::file::spec_file_from_char(s[0]),
            crate::rank::spec_rank_from_char(s[1]),
            crate::file::spec_file_from_char(s[2]),
            crate::rank::spec_rank_from_char(s[3]),
        ) {
            (Some(f1), Some(r1), Some(f2), Some(r2)) => {
                if s.len() == 5 && crate::piece::spec_piece_of_char(s[4]) is None {
                    None
                } else {
                    Some(
                        Move {
                            from: Pos {
                                pos: (crate::file::spec_file_value(f1) * 8
                                    + crate::rank::spec_rank_value(r1)) as u8,
                            },
                            to: Pos {
                                pos: (crate::file::spec_file_value(f2) * 8
                                    + crate::rank::spec_rank_value(r2)) as u8,
                            },
                            promotion: if s.len() == 5 {
                                Some(crate::piece::spec_piece_of_char(s[4])->Some_0.1)
                            } else {
                                None
                            },
                        },
                    )
                }
            },
            _ => None,
        }
    }
}

/// The ambiguity fold over the first `n` listed moves: whether another
/// move of the same kind of piece reaches the same destination, whether
/// one does so from the same file, and whether one does so from the
/// same rank.
pub open spec fn spec_ambiguity(b: Board, m: Move, moves: Seq<Move>, n: int) -> (bool, bool, bool)
    decreases n,
{
    if n <= 0 {
        (false, false, false)
    } else {
        let prev = spec_ambiguity(b, m, moves, n - 1);
        let mv = moves[n - 1];
        if mv.from.valid() && mv.from != m.from && b.occ(mv.from.pos as u64) == b.occ(
            m.from.pos as u64,
        ) && mv.to == m.to {
            (
                true,
                prev.1 || m.from.spec_file() == mv.from.spec_file(),
                prev.2 || m.from.spec_rank() == mv.from.spec_rank(),
            )
        } else {
            prev
        }
    }
}

/// Whether a listed move is the en-passant capture: a pawn changes file
/// onto an empty square.
pub open spec fn spec_is_ep(b: Board, m: Move) -> bool {
    let piece = b.occ(m.from.pos as u64)->Some_0.1;
    piece is Pawn && m.from.spec_file() != m.to.spec_file() && b.occ(m.to.pos as u64) is None
}

/// The move text without check or en-passant marks: castling as 0-0 or
/// 0-0-0; otherwise the piece letter, any disambiguation, an x on
/// captures, the destination, and any promotion.
pub open spec fn spec_format_body(b: Board, m: Move, moves: Seq<Move>) -> Seq<char> {
    let piece = b.occ(m.from.pos as u64)->Some_0.1;
    let en_passant = spec_is_ep(b, m);
    let capture = b.occ(m.to.pos as u64) is Some || en_passant;
    let kingside = piece is King && m.from.spec_file() == 4 && m.to.spec_file() == 6;
    let queenside = piece is King && m.from.spec_file() == 4 && m.to.spec_file() == 2;
    let amb = spec_ambiguity(b, m, moves, moves.len() as int);
    let specify_rank = amb.1;
    let specify_file = amb.2 || (amb.0 && !amb.1 && !amb.2);
    if kingside {
        "0-0"@
    } else if queenside {
        "0-0-0"@
    } else {
        (if piece is Pawn {
            Seq::<char>::empty()
        } else {
            spec_notation(piece) + (if specify_file {
                spec_file_seq(m.from)
            } else {
                Seq::empty()
            }) + (if specify_rank {
                spec_rank_seq(m.from)
            } else {
                Seq::empty()
            })
        }) + (if capture {
            (if piece is Pawn {
                spec_file_seq(m.from)
            } else {
                Seq::empty()
            }) + "x"@
        } else {
            Seq::empty()
        }) + spec_file_seq(m.to) + spec_rank_seq(m.to) + (match m.promotion {
            Some(p) => "="@ + spec_notation(p),
            None => Seq::empty(),
        })
    }
}

/// The full algebraic notation of a listed move: the move text, a
/// trailing mark for check or checkmate, and a note for en passant.
pub open spec fn spec_format(b: Board, m: Move, moves: Seq<Move>) -> Seq<char> {
    let applied = crate::apply::spec_apply(b, m);
    let check = crate::attack::spec_in_check(applied);
    let checkmate = check && crate::movegen::spec_all_moves(applied).len() == 0;
    spec_format_body(b, m, moves) + (if checkmate {
        "#"@
    } else if check {
        "+"@
    } else {
        Seq::empty()
    }) + (if spec_is_ep(b, m) {
        " e.p."@
    } else {
        Seq::empty()
    })
}

impl Move {
    /// Renders the move text without check or en-passant marks.
    #[verifier::rlimit(100)]
    #[verifier::spinoff_prover]
    fn format_body(self, board: &Board, all_moves: &[Move]) -> (r: String)
        requires
            board.wf(),
            crate::apply::can_apply(*board, self),
        ensures
            r@ == spec_format_body(*board, self, all_moves@),
    {
        let (player, piece) = match board.getp(self.from) {
            Some(pp) => pp,
            None => (crate::player::Player::White, Piece::Pawn),  // ruled out
        };
        let mut something = false;
        let mut specify_rank = false;
        let mut specify_file = false;
        let mut idx: usize = 0;
        while idx < all_moves.len()
            invariant
                board.wf(),
                self.from.valid(),
                (something, specify_rank, specify_file) == spec_ambiguity(
                    *board,
                    self,
                    all_moves@,
                    idx as int,
                ),
                idx <= all_moves@.len(),
            decreases all_moves@.len() - idx,
        {
            let mv = all_moves[idx];
            idx = idx + 1;
            if mv.from.value() < 64 && !(mv.from.value() == self.from.value()) && mv.to.value()
                == self.to.value() && mv.to.value() == self.to.value() {
                let same = match (board.getp(mv.from), board.getp(self.from)) {
                    (Some((p1, pc1)), Some((p2, pc2))) => p1 == p2 && pc1 == pc2,
                    (None, None) => true,
                    _ => false,
                };
                if same && mv.to.pos == self.to.pos {
                    something = true;
                    if self.from.value() / 8 == mv.from.value() / 8 {
                        specify_rank = true;
                    }
                    if self.from.value() % 8 == mv.from.value() % 8 {
                        specify_file = true;
                    }
                }
            }
        }
        if something && !specify_rank && !specify_file {
            specify_file = true;
        }
        let en_passant = matches!(piece, Piece::Pawn) && self.from.value() / 8 != self.to.value()
            / 8 && board.getp(self.to).is_none();
        let capture = board.getp(self.to).is_some() || en_passant;
        let kingside = matches!(piece, Piece::King) && self.from.value() / 8 == 4
            && self.to.value() / 8 == 6;
        let queenside = matches!(piece, Piece::King) && self.from.value() / 8 == 4
            && self.to.value() / 8 == 2;
        let mut r = String::new();
        if kingside {
            r.append("0-0");
        } else if queenside {
            r.append("0-0-0");
        } else {
            if !matches!(piece, Piece::Pawn) {
                r.append(piece.notation());
                if specify_file {
                    r.append(self.from.file().as_str());
                }
                if specify_rank {
                    r.append(self.from.rank().as_str());
                }
            }
            if capture {
                if matches!(piece, Piece::Pawn) {
                    r.append(self.from.file().as_str());
                }
                r.append("x");
            }
            r.append(self.to.file().as_str());
            r.append(self.to.rank().as_str());
            match self.promotion {
                Some(p) => {
                    r.append("=");
                    r.append(p.notation());
                },
                None => {},
            }
        }
        proof {
            assert(r@ =~= spec_format_body(*board, self, all_moves@));
        }
        r
    }

    /// Renders this move in algebraic notation, given the position it is
    /// played in and the full legal move list (used to disambiguate
    /// between like pieces reaching the same square).
    #[verifier::rlimit(100)]
    #[verifier::spinoff_prover]
    pub fn format(self, board: Board, all_moves: &[Move]) -> (r: String)
        requires
            board.wf(),
            crate::apply::can_apply(board, self),
        ensures
            r@ == spec_format(board, self, all_moves@),
    {
        let (player, piece) = match board.getp(self.from) {
            Some(pp) => pp,
            None => (crate::player::Player::White, Piece::Pawn),  // ruled out
        };
        let mut new_board = board;
        new_board.apply_move(self);
        proof {
            crate::repr::lemma_wf_disjoint(new_board.repr);
        }
        let check = new_board.in_check();
        let checkmate = if check {
            new_board.all_moves().len() == 0
        } else {
            false
        };
        let en_passant = matches!(piece, Piece::Pawn) && self.from.value() / 8 != self.to.value()
            / 8 && board.getp(self.to).is_none();
        let mut r = self.format_body(&board, all_moves);
        if checkmate {
            r.append("#");
        } else if check {
            r.append("+");
        }
        if en_passant {
            r.append(" e.p.");
        }
        proof {
            assert(r@ =~= spec_format(board, self, all_moves@));
        }
        r
    }

    /// Renders this move in the compact transport form: origin and
    /// destination squares, then the lowercase letter of any promotion
    /// piece.
    pub fn to_uci(self) -> (r: String)
        requires
            self.valid(),
        ensures
            r@ == spec_file_seq(self.from) + spec_rank_seq(self.from) + spec_file_seq(self.to)
                + spec_rank_seq(self.to) + (match self.promotion {
                Some(p) => seq![crate::piece::spec_ascii_char(p, crate::player::Player::Black)],
                None => Seq::<char>::empty(),
            }),
    {
        let mut r = String::from_str(self.from.file().as_str());
        r.append(self.from.rank().as_str());
        r.append(self.to.file().as_str());
        r.append(self.to.rank().as_str());
        match self.promotion {
            Some(p) => {
                proof {
                    reveal_strlit("p");
                    reveal_strlit("n");
                    reveal_strlit("b");
                    reveal_strlit("r");
                    reveal_strlit("q");
                    reveal_strlit("k");
                }
                let c: &'static str = match p {
                    Piece::Pawn => "p",
                    Piece::Knight => "n",
                    Piece::Bishop => "b",
                    Piece::Rook => "r",
                    Piece::Queen => "q",
                    Piece::King => "k",
                };
                r.append(c);
            },
            None => {},
        }
        proof {
            assert(r@ =~= spec_file_seq(self.from) + spec_rank_seq(self.from) + spec_file_seq(
                self.to,
            ) + spec_rank_seq(self.to) + (match self.promotion {
                Some(p) => seq![crate::piece::spec_ascii_char(p, crate::player::Player::Black)],
                None => Seq::<char>::empty(),
            }));
        }
        r
    }

    /// Parses a move from the compact transport form: two squares in
    /// algebraic notation and an optional promotion-piece letter.
    pub fn from_uci(s: &str) -> (r: Option<Move>)
        ensures
            r == spec_from_uci(s@),
            r matches Some(m) ==> m.valid(),
    {
        let len = s.unicode_len();
        if len != 4 && len != 5 {
            return None;
        }
        let f1 = crate::file::File::from_char(s.get_char(0));
        let r1 = crate::rank::Rank::from_char(s.get_char(1));
        let f2 = crate::file::File::from_char(s.get_char(2));
        let r2 = crate::rank::Rank::from_char(s.get_char(3));
        let (f1, r1, f2, r2) = match (f1, r1, f2, r2) {
            (Some(a), Some(b), Some(c), Some(d)) => (a, b, c, d),
            _ => {
                return None;
            },
        };
        let promotion = if len == 5 {
            match Piece::from_ascii_char(s.get_char(4)) {
                Some((_, pc)) => Some(pc),
                None => {
                    return None;
                },
            }
        } else {
            None
        };
        Some(
            Move {
                from: Pos::new(f1, r1),
                to: Pos::new(f2, r2),
                promotion,
            },
        )
    }
}

} // verus!
