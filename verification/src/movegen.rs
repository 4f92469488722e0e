//! Legal move generation: every pseudo-legal move that does not leave
//! the mover's king attacked, plus castling.

use vstd::prelude::*;

use crate::apply::spec_back_dir;
use crate::attack::{can_enumerate, spec_simple_moves, spec_square_in_check};
use crate::bitops::{bit64, lemma_bits};
use crate::board::Board;
use crate::mov::Move;
use crate::piece::Piece;
use crate::player::Player;
use crate::pos::Pos;
use crate::repr::{lemma_player_pieces_occ, lemma_wf_disjoint};

verus! {

/// The speculative board used by the check filter: the moving piece is
/// lifted off its origin square and placed on the destination, and an
/// en-passant capture also removes the passed pawn from the square
/// behind the destination; nothing else changes.
pub open spec fn spec_preview(b: Board, from: Pos, to: Pos, piece: Piece) -> Board {
    let r1 = b.repr.spec_set(from.pos as u64, None).spec_set(
        to.pos as u64,
        Some((b.current_player, piece)),
    );
    let r2 = if piece is Pawn && b.en_passant_target == Some(to) {
        match to.spec_offset(spec_back_dir(b.current_player)) {
            Some(cp) => r1.spec_set(cp.pos as u64, None),
            None => r1,
        }
    } else {
        r1
    };
    Board { repr: r2, ..b }
}

/// Whether the check filter rejects a move: on the speculative board,
/// the mover's king square (the destination, if the king itself moved)
/// is attacked.
pub open spec fn spec_rejected(b: Board, from: Pos, to: Pos, piece: Piece) -> bool {
    let check_sq = if piece is King {
        to
    } else {
        b.repr.spec_king_pos(b.current_player)
    };
    spec_square_in_check(spec_preview(b, from, to, piece), check_sq)
}

/// The four promotion expansions of a pawn move, in the fixed order
/// queen, rook, bishop, knight.
pub open spec fn spec_promotions(from: Pos, to: Pos) -> Seq<Move> {
    seq![
        Move { from, to, promotion: Some(Piece::Queen) },
        Move { from, to, promotion: Some(Piece::Rook) },
        Move { from, to, promotion: Some(Piece::Bishop) },
        Move { from, to, promotion: Some(Piece::Knight) },
    ]
}

/// The moves contributed by one destination square `t`: nothing if the
/// piece cannot reach it or the check filter rejects it; the four
/// promotions if a pawn reaches a far rank; one plain move otherwise.
pub open spec fn spec_moves_at(b: Board, from: Pos, piece: Piece, t: u64) -> Seq<Move> {
    let to = Pos { pos: t as u8 };
    if !bit64(spec_simple_moves(b, from, b.en_passant_target), t) {
        Seq::empty()
    } else if spec_rejected(b, from, to, piece) {
        Seq::empty()
    } else if piece is Pawn && (t % 8 == 7 || t % 8 == 0) {
        spec_promotions(from, to)
    } else {
        seq![Move { from, to, promotion: None }]
    }
}

/// The moves of the piece on `from` whose destinations lie below `n`,
/// in ascending destination order.
pub open spec fn spec_moves_at_below(b: Board, from: Pos, piece: Piece, n: int) -> Seq<Move>
    decreases n,
{
    if n <= 0 {
        Seq::empty()
    } else {
        spec_moves_at_below(b, from, piece, n - 1) + spec_moves_at(b, from, piece, (n - 1) as u64)
    }
}

/// All non-castling moves originating on `from`: empty unless the
/// square holds a piece of the player to move.
pub open spec fn spec_square_moves(b: Board, from: Pos) -> Seq<Move> {
    match b.occ(from.pos as u64) {
        Some((pl, pc)) => if pl == b.current_player {
            spec_moves_at_below(b, from, pc, 64)
        } else {
            Seq::empty()
        },
        None => Seq::empty(),
    }
}

/// All non-castling moves whose origin square lies below `n`, in
/// ascending origin order.
pub open spec fn spec_moves_below(b: Board, n: int) -> Seq<Move>
    decreases n,
{
    if n <= 0 {
        Seq::empty()
    } else {
        spec_moves_below(b, n - 1) + spec_square_moves(b, Pos { pos: (n - 1) as u8 })
    }
}

/// The kingside castling move, when it is allowed: the right is still
/// held, the two squares between king and rook are empty, the rook
/// stands on its corner, and neither the king's start, transit, nor
/// destination square is attacked.
pub open spec fn spec_kingside_castle(b: Board) -> Seq<Move> {
    let rank = if b.current_player is White {
        0u8
    } else {
        7u8
    };
    let flag = if b.current_player is White {
        b.white_kingside_castle
    } else {
        b.black_kingside_castle
    };
    let rook_bit = if b.current_player is White {
        bit64(b.repr.white_rooks.value, (56 + rank) as u64)
    } else {
        bit64(b.repr.black_rooks.value, (56 + rank) as u64)
    };
    if flag && b.occ((40 + rank) as u64) is None && b.occ((48 + rank) as u64) is None && rook_bit
        && !spec_square_in_check(b, Pos { pos: (32 + rank) as u8 }) && !spec_square_in_check(
        b,
        Pos { pos: (40 + rank) as u8 },
    ) && !spec_square_in_check(b, Pos { pos: (48 + rank) as u8 }) {
        seq![
            Move {
                from: Pos { pos: (32 + rank) as u8 },
                to: Pos { pos: (48 + rank) as u8 },
                promotion: None,
            },
        ]
    } else {
        Seq::empty()
    }
}

/// The queenside castling move, when it is allowed: the right is still
/// held, the three squares between king and rook are empty, the rook
/// stands on its corner, and neither the king's start, transit, nor
/// destination square is attacked.
pub open spec fn spec_queenside_castle(b: Board) -> Seq<Move> {
    let rank = if b.current_player is White {
        0u8
    } else {
        7u8
    };
    let flag = if b.current_player is White {
        b.white_queenside_castle
    } else {
        b.black_queenside_castle
    };
    let rook_bit = if b.current_player is White {
        bit64(b.repr.white_rooks.value, rank as u64)
    } else {
        bit64(b.repr.black_rooks.value, rank as u64)
    };
    if flag && b.occ((24 + rank) as u64) is None && b.occ((16 + rank) as u64) is None && b.occ(
        (8 + rank) as u64,
    ) is None && rook_bit && !spec_square_in_check(b, Pos { pos: (32 + rank) as u8 })
        && !spec_square_in_check(b, Pos { pos: (24 + rank) as u8 }) && !spec_square_in_check(
        b,
        Pos { pos: (16 + rank) as u8 },
    ) {
        seq![
            Move {
                from: Pos { pos: (32 + rank) as u8 },
                to: Pos { pos: (16 + rank) as u8 },
                promotion: None,
            },
        ]
    } else {
        Seq::empty()
    }
}

/// Every legal move of the player to move, in generation order: the
/// per-square moves by ascending origin and destination, then the
/// kingside and queenside castling moves.
pub open spec fn spec_all_moves(b: Board) -> Seq<Move> {
    spec_moves_below(b, 64) + spec_kingside_castle(b) + spec_queenside_castle(b)
}

impl Board {
    /// Returns whether the check filter admits the move of `piece` from
    /// `from` to `to`: on the speculative board with the piece lifted
    /// onto its destination (and the passed pawn removed, for an
    /// en-passant capture), the mover's king square is not attacked.
    fn move_allowed(&self, from: Pos, to: Pos, piece: Piece, king_pos: Pos) -> (r: bool)
        requires
            self.wf(),
            from.valid(),
            to.valid(),
            king_pos == self.repr.spec_king_pos(self.current_player),
        ensures
            r == !spec_rejected(*self, from, to, piece),
    {
        let mut new_board = *self;
        new_board.setp(from, None);
        new_board.setp(to, Some((self.current_player, piece)));
        let is_ep_capture = matches!(piece, Piece::Pawn) && match self.en_passant_target {
            Some(e) => e.value() == to.value(),
            None => false,
        };
        if is_ep_capture {
            let back_dir = match self.current_player {
                Player::White => crate::direction::Direction::S,
                Player::Black => crate::direction::Direction::N,
            };
            match to.offset(back_dir) {
                Some(cp) => new_board.setp(cp, None),
                None => {},
            }
        }
        proof {
            lemma_bits();
            assert(new_board == spec_preview(*self, from, to, piece));
            assert forall|j: u64| j < 64 implies #[trigger] new_board.repr.board_claims(j)
                <= 1 by {
                assert(self.repr.claim_count(j) <= 1);
            }
        }
        let check_sq = if matches!(piece, Piece::King) {
            to
        } else {
            king_pos
        };
        !new_board.square_in_check(check_sq)
    }

    /// Returns every legal move for the player to move: all
    /// pseudo-legal piece moves that leave the mover's king unattacked,
    /// promotions expanded four ways, plus any permitted castling.
    #[verifier::rlimit(100)]
    #[verifier::spinoff_prover]
    pub fn all_moves(&self) -> (res: Vec<Move>)
        requires
            self.wf(),
        ensures
            res@ == spec_all_moves(*self),
    {
        proof {
            lemma_bits();
            lemma_player_pieces_occ(self.repr, self.current_player);
        }
        let mut res: Vec<Move> = Vec::new();
        let king_pos = self.repr.king_pos(self.current_player);
        let own = self.repr.player_pieces(self.current_player);
        for i in 0..64u8
            invariant
                res@ == spec_moves_below(*self, i as int),
                self.wf(),
                king_pos == self.repr.spec_king_pos(self.current_player),
                own.value == self.repr.spec_player_pieces(self.current_player),
        {
            proof {
                lemma_bits();
                lemma_player_pieces_occ(self.repr, self.current_player);
            }
            let pos = Pos::from_value(i);
            if own.get(pos) {
                let original_piece = match self.getp(pos) {
                    Some((_, pc)) => pc,
                    None => Piece::Pawn,  // ruled out: the occupancy bit is set
                };
                proof {
                    lemma_wf_disjoint(self.repr);
                    assert(can_enumerate(*self, pos));
                }
                let targets = self.simple_piece_moves(pos, self.en_passant_target);
                for t in 0..64u8
                    invariant
                        res@ == spec_moves_below(*self, i as int) + spec_moves_at_below(
                            *self,
                            pos,
                            original_piece,
                            t as int,
                        ),
                        self.wf(),
                        pos.pos == i,
                        i < 64,
                        king_pos == self.repr.spec_king_pos(self.current_player),
                        self.occ(i as u64) == Some((self.current_player, original_piece)),
                        forall|j: u64|
                            j < 64 ==> (#[trigger] bit64(targets.value, j) <==> bit64(
                                spec_simple_moves(*self, pos, self.en_passant_target),
                                j,
                            )),
                {
                    proof {
                        lemma_bits();
                    }
                    let target = Pos::from_value(t);
                    if targets.get(target) {
                        if self.move_allowed(pos, target, original_piece, king_pos) {
                            let is_promo = matches!(original_piece, Piece::Pawn) && {
                                let r = target.value() % 8;
                                r == 7 || r == 0
                            };
                            if is_promo {
                                res.push(
                                    Move { from: pos, to: target, promotion: Some(Piece::Queen) },
                                );
                                res.push(
                                    Move { from: pos, to: target, promotion: Some(Piece::Rook) },
                                );
                                res.push(
                                    Move { from: pos, to: target, promotion: Some(Piece::Bishop) },
                                );
                                res.push(
                                    Move { from: pos, to: target, promotion: Some(Piece::Knight) },
                                );
                            } else {
                                res.push(Move { from: pos, to: target, promotion: None });
                            }
                        }
                    }
                    proof {
                        assert(res@ =~= spec_moves_below(*self, i as int) + spec_moves_at_below(
                            *self,
                            pos,
                            original_piece,
                            t + 1,
                        ));
                    }
                }
                proof {
                    assert(spec_square_moves(*self, pos) == spec_moves_at_below(
                        *self,
                        pos,
                        original_piece,
                        64,
                    ));
                    assert(res@ =~= spec_moves_below(*self, i + 1));
                }
            } else {
                proof {
                    assert(spec_square_moves(*self, pos) =~= Seq::<Move>::empty());
                    assert(res@ =~= spec_moves_below(*self, i + 1));
                }
            }
        }
        proof {
            assert(res@ =~= spec_moves_below(*self, 64));
            lemma_wf_disjoint(self.repr);
        }
        let rank: u8 = match self.current_player {
            Player::White => 0,
            Player::Black => 7,
        };
        let (kingside_flag, queenside_flag) = match self.current_player {
            Player::White => (self.white_kingside_castle, self.white_queenside_castle),
            Player::Black => (self.black_kingside_castle, self.black_queenside_castle),
        };
        let kingside_rook = match self.current_player {
            Player::White => self.repr.white_rooks.get(Pos::from_value(56 + rank)),
            Player::Black => self.repr.black_rooks.get(Pos::from_value(56 + rank)),
        };
        if kingside_flag && self.getp(Pos::from_value(40 + rank)).is_none() && self.getp(
            Pos::from_value(48 + rank),
        ).is_none() && kingside_rook && !self.square_in_check(Pos::from_value(32 + rank))
            && !self.square_in_check(Pos::from_value(40 + rank)) && !self.square_in_check(
            Pos::from_value(48 + rank),
        ) {
            res.push(
                Move {
                    from: Pos::from_value(32 + rank),
                    to: Pos::from_value(48 + rank),
                    promotion: None,
                },
            );
        }
        proof {
            assert(res@ =~= spec_moves_below(*self, 64) + spec_kingside_castle(*self));
        }
        let queenside_rook = match self.current_player {
            Player::White => self.repr.white_rooks.get(Pos::from_value(rank)),
            Player::Black => self.repr.black_rooks.get(Pos::from_value(rank)),
        };
        if queenside_flag && self.getp(Pos::from_value(24 + rank)).is_none() && self.getp(
            Pos::from_value(16 + rank),
        ).is_none() && self.getp(Pos::from_value(8 + rank)).is_none() && queenside_rook
            && !self.square_in_check(Pos::from_value(32 + rank)) && !self.square_in_check(
            Pos::from_value(24 + rank),
        ) && !self.square_in_check(Pos::from_value(16 + rank)) {
            res.push(
                Move {
                    from: Pos::from_value(32 + rank),
                    to: Pos::from_value(16 + rank),
                    promotion: None,
                },
            );
        }
        proof {
            assert(res@ =~= spec_all_moves(*self));
        }
        res
    }
}

/// Considering more destination squares never removes moves.
proof fn lemma_moves_at_len_mono(b: Board, from: Pos, piece: Piece, n1: int, n2: int)
    requires
        n1 <= n2,
    ensures
        spec_moves_at_below(b, from, piece, n1).len() <= spec_moves_at_below(
            b,
            from,
            piece,
            n2,
        ).len(),
    decreases n2 - n1,
{
    if n1 < n2 {
        lemma_moves_at_len_mono(b, from, piece, n1, n2 - 1);
    }
}

/// Considering more origin squares never removes moves.
proof fn lemma_moves_below_len_mono(b: Board, n1: int, n2: int)
    requires
        n1 <= n2,
    ensures
        spec_moves_below(b, n1).len() <= spec_moves_below(b, n2).len(),
    decreases n2 - n1,
{
    if n1 < n2 {
        lemma_moves_below_len_mono(b, n1, n2 - 1);
    }
}

impl Board {
    /// Returns whether the player to move has any legal move, stopping
    /// at the first one generated: the cheap existence check that spares
    /// callers the full move list.
    #[verifier::rlimit(100)]
    #[verifier::spinoff_prover]
    pub fn has_any_move(&self) -> (r: bool)
        requires
            self.wf(),
        ensures
            r <==> spec_all_moves(*self).len() > 0,
    {
        proof {
            lemma_bits();
            lemma_player_pieces_occ(self.repr, self.current_player);
        }
        let king_pos = self.repr.king_pos(self.current_player);
        let own = self.repr.player_pieces(self.current_player);
        for i in 0..64u8
            invariant
                spec_moves_below(*self, i as int).len() == 0,
                self.wf(),
                king_pos == self.repr.spec_king_pos(self.current_player),
                own.value == self.repr.spec_player_pieces(self.current_player),
        {
            proof {
                lemma_bits();
                lemma_player_pieces_occ(self.repr, self.current_player);
            }
            let pos = Pos::from_value(i);
            if own.get(pos) {
                let original_piece = match self.getp(pos) {
                    Some((_, pc)) => pc,
                    None => Piece::Pawn,  // ruled out: the occupancy bit is set
                };
                proof {
                    lemma_wf_disjoint(self.repr);
                    assert(can_enumerate(*self, pos));
                }
                let targets = self.simple_piece_moves(pos, self.en_passant_target);
                for t in 0..64u8
                    invariant
                        spec_moves_at_below(*self, pos, original_piece, t as int).len() == 0,
                        spec_moves_below(*self, i as int).len() == 0,
                        self.wf(),
                        pos.pos == i,
                        i < 64,
                        king_pos == self.repr.spec_king_pos(self.current_player),
                        self.occ(i as u64) == Some((self.current_player, original_piece)),
                        forall|j: u64|
                            j < 64 ==> (#[trigger] bit64(targets.value, j) <==> bit64(
                                spec_simple_moves(*self, pos, self.en_passant_target),
                                j,
                            )),
                {
                    proof {
                        lemma_bits();
                    }
                    let target = Pos::from_value(t);
                    if targets.get(target) {
                        if self.move_allowed(pos, target, original_piece, king_pos) {
                            proof {
                                assert(spec_moves_at(*self, pos, original_piece, t as u64).len()
                                    >= 1);
                                lemma_moves_at_len_mono(*self, pos, original_piece, t + 1, 64);
                                assert(spec_square_moves(*self, pos).len() >= 1);
                                lemma_moves_below_len_mono(*self, i + 1, 64);
                            }
                            return true;
                        }
                    }
                }
                proof {
                    assert(spec_square_moves(*self, pos) == spec_moves_at_below(
                        *self,
                        pos,
                        original_piece,
                        64,
                    ));
                }
            } else {
                proof {
                    assert(spec_square_moves(*self, pos) =~= Seq::<Move>::empty());
                }
            }
        }
        proof {
            lemma_wf_disjoint(self.repr);
        }
        let rank: u8 = match self.current_player {
            Player::White => 0,
            Player::Black => 7,
        };
        let (kingside_flag, queenside_flag) = match self.current_player {
            Player::White => (self.white_kingside_castle, self.white_queenside_castle),
            Player::Black => (self.black_kingside_castle, self.black_queenside_castle),
        };
        let kingside_rook = match self.current_player {
            Player::White => self.repr.white_rooks.get(Pos::from_value(56 + rank)),
            Player::Black => self.repr.black_rooks.get(Pos::from_value(56 + rank)),
        };
        if kingside_flag && self.getp(Pos::from_value(40 + rank)).is_none() && self.getp(
            Pos::from_value(48 + rank),
        ).is_none() && kingside_rook && !self.square_in_check(Pos::from_value(32 + rank))
            && !self.square_in_check(Pos::from_value(40 + rank)) && !self.square_in_check(
            Pos::from_value(48 + rank),
        ) {
            return true;
        }
        let queenside_rook = match self.current_player {
            Player::White => self.repr.white_rooks.get(Pos::from_value(rank)),
            Player::Black => self.repr.black_rooks.get(Pos::from_value(rank)),
        };
        if queenside_flag && self.getp(Pos::from_value(24 + rank)).is_none() && self.getp(
            Pos::from_value(16 + rank),
        ).is_none() && self.getp(Pos::from_value(8 + rank)).is_none() && queenside_rook
            && !self.square_in_check(Pos::from_value(32 + rank)) && !self.square_in_check(
            Pos::from_value(24 + rank),
        ) && !self.square_in_check(Pos::from_value(16 + rank)) {
            return true;
        }
        false
    }
}

} // verus!
