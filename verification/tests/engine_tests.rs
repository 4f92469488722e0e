use chess_core::{
    add, Board, DrawReason, FenError, GameResult, Piece, Player, Pos, WinReason,
};

#[test]
fn it_works() {
    let result = add(2, 2);
    assert_eq!(result, 4);
}

#[test]
fn initial_fen_round_trip() {
    let board = Board::initial_position();
    let fen = board.to_fen();
    assert_eq!(
        fen,
        "rnbqkbnr/pppppppp/8/8/8/8/PPPPPPPP/RNBQKBNR w KQkq -"
    );
    let reparsed = Board::from_fen(&fen).unwrap();
    assert_eq!(reparsed.to_fen(), fen);
}

#[test]
fn fen_round_trip_after_moves() {
    // every position reached in a short game formats back to the same text
    let mut board = Board::initial_position();
    for uci in ["e2e4", "c7c5", "g1f3", "d7d6", "f1b5", "c8d7"] {
        let want = chess_core::Move::from_uci(uci).unwrap();
        let moves = board.all_moves();
        let m = moves
            .iter()
            .find(|m| m.from == want.from && m.to == want.to && m.promotion == want.promotion)
            .expect("legal move");
        board.apply_move(*m);
        let fen = board.to_fen();
        let reparsed = Board::from_fen(&fen).unwrap();
        assert_eq!(reparsed.to_fen(), fen);
    }
}

#[test]
fn en_passant_timing() {
    let mut board = Board::initial_position();
    assert_eq!(board.en_passant_target, None);
    // a double pawn advance sets the passed-over square
    let moves = board.all_moves();
    let m = moves
        .iter()
        .find(|m| m.from == Pos::try_from("e2").unwrap() && m.to == Pos::try_from("e4").unwrap())
        .unwrap();
    board.apply_move(*m);
    assert_eq!(board.en_passant_target, Some(Pos::try_from("e3").unwrap()));
    // any reply that is not a double advance clears it again
    let moves = board.all_moves();
    let m = moves
        .iter()
        .find(|m| m.from == Pos::try_from("g8").unwrap() && m.to == Pos::try_from("f6").unwrap())
        .unwrap();
    board.apply_move(*m);
    assert_eq!(board.en_passant_target, None);
}

#[test]
fn moves_never_leave_mover_in_check() {
    // a pinned knight has no moves; everything generated keeps the king safe
    let board = Board::from_fen("4r2k/8/8/8/8/4N3/8/4K3 w - -").unwrap();
    let moves = board.all_moves();
    for m in moves.iter() {
        assert_ne!(m.from, Pos::try_from("e3").unwrap(), "pinned piece moved");
        let mut nb = board;
        nb.apply_move(*m);
        // after White's move it is Black's turn; White must not be capturable
        let replies = nb.all_moves();
        for r in replies.iter() {
            assert_ne!(Some((Player::White, Piece::King)), nb.getp(r.to));
        }
    }
}

#[test]
fn en_passant_pin_is_illegal() {
    // capturing en passant would clear both pawns off the fifth rank
    // and expose the white king to the rook; the move must not appear
    let board = Board::from_fen("k7/8/8/KPp4r/8/8/8/8 w - c6").unwrap();
    let moves = board.all_moves();
    for m in moves.iter() {
        assert!(
            !(m.from == Pos::try_from("b5").unwrap() && m.to == Pos::try_from("c6").unwrap()),
            "en-passant capture into check was generated"
        );
    }
    // the plain advance and the king moves remain
    assert!(moves
        .iter()
        .any(|m| m.from == Pos::try_from("b5").unwrap() && m.to == Pos::try_from("b6").unwrap()));
}

#[test]
fn en_passant_capture_is_legal_when_safe() {
    // the same capture with no rook behind it is generated and applies
    let board = Board::from_fen("k7/8/8/KPp5/8/8/8/8 w - c6").unwrap();
    let moves = board.all_moves();
    let ep = moves
        .iter()
        .find(|m| m.from == Pos::try_from("b5").unwrap() && m.to == Pos::try_from("c6").unwrap())
        .expect("en-passant capture missing");
    let mut b2 = board;
    b2.apply_move(*ep);
    assert_eq!(b2.getp(Pos::try_from("c5").unwrap()), None);
    assert_eq!(
        b2.getp(Pos::try_from("c6").unwrap()),
        Some((Player::White, Piece::Pawn))
    );
}

#[test]
fn checkmate_is_reported() {
    // back-rank mate
    let board = Board::from_fen("k7/8/8/8/8/8/R7/1R5K b - -").unwrap();
    assert_eq!(
        board.game_result(),
        Some(GameResult::Win {
            winner: Player::White,
            win: WinReason::Checkmate,
        })
    );
}

#[test]
fn stalemate_is_reported() {
    let board = Board::from_fen("k7/8/1Q6/8/8/8/8/7K b - -").unwrap();
    assert_eq!(
        board.game_result(),
        Some(GameResult::Draw {
            draw: DrawReason::Stalemate,
        })
    );
}

#[test]
fn ongoing_game_has_no_result() {
    assert_eq!(Board::initial_position().game_result(), None);
}

#[test]
fn material_difference_values() {
    assert_eq!(Board::initial_position().material_difference(), 0);
    // one side up a queen and a pawn
    let board = Board::from_fen("k7/8/8/8/8/8/PQ6/K7 w - -").unwrap();
    assert_eq!(board.material_difference(), 10);
    let board = Board::from_fen("k6q/7p/8/8/8/8/8/K7 w - -").unwrap();
    assert_eq!(board.material_difference(), -10);
}

#[test]
fn fen_errors() {
    assert_eq!(
        Board::from_fen("9/8/8/8/8/8/8/8 w - -"),
        Err(FenError::BadPiece)
    );
    assert_eq!(
        Board::from_fen("x7/8/8/8/8/8/8/8 w - -"),
        Err(FenError::BadPiece)
    );
    assert_eq!(
        Board::from_fen("8/8/8/8/8/8/8/8/8 w - -"),
        Err(FenError::TooManySquares)
    );
    assert_eq!(
        Board::from_fen("8/8/8/8/8/8/8/8 x - -"),
        Err(FenError::BadPlayer)
    );
    assert_eq!(
        Board::from_fen("8/8/8/8/8/8/8/8 w Kx -"),
        Err(FenError::BadCastling)
    );
    assert_eq!(
        Board::from_fen("8/8/8/8/8/8/8/8 w - z3"),
        Err(FenError::BadSquare)
    );
    assert_eq!(Board::from_fen("8/8/8/8/8/8/8/8 w"), Err(FenError::MissingField));
    // a piece written onto the square still held by an unwritten king's
    // default collides with it
    assert_eq!(
        Board::from_fen("4k3/8/8/8/8/8/8/4R3 w - -"),
        Err(FenError::DoubledSquare)
    );
    assert_eq!(
        Board::from_fen("P7/8/8/8/8/8/8/8 w - -"),
        Err(FenError::PawnOnBackRank)
    );
    assert_eq!(
        Board::from_fen("8/8/8/8/8/8/8/p7 w - -"),
        Err(FenError::PawnOnBackRank)
    );
}

#[test]
fn fen_grammar_is_enforced() {
    // a placement must fill all eight ranks of eight squares
    assert_eq!(Board::from_fen("8 w - -"), Err(FenError::TooFewSquares));
    assert_eq!(
        Board::from_fen("8/8/8/8/8/8/8/4 w - -"),
        Err(FenError::TooFewSquares)
    );
    // a rank may not be broken off or overfilled
    assert_eq!(
        Board::from_fen("4/4/8/8/8/8/8/8 w - -"),
        Err(FenError::TooFewSquares)
    );
    assert_eq!(
        Board::from_fen("rnbqkbnrr/pppppppp/8/8/8/8/PPPPPPPP/RNBQKBNR w - -"),
        Err(FenError::TooManySquares)
    );
    assert_eq!(
        Board::from_fen("8/8/8/8/8/45/8/8 w - -"),
        Err(FenError::TooManySquares)
    );
    // nothing but a space may follow the en-passant field
    assert_eq!(
        Board::from_fen("8/8/8/8/8/8/8/8 w - -x"),
        Err(FenError::TrailingText)
    );
    // behind a space, the unmodeled move counters are tolerated
    let fen = "rnbqkbnr/pppppppp/8/8/8/8/PPPPPPPP/RNBQKBNR w KQkq - 0 1";
    let b = Board::from_fen(fen).unwrap();
    assert_eq!(
        b.to_fen(),
        "rnbqkbnr/pppppppp/8/8/8/8/PPPPPPPP/RNBQKBNR w KQkq -"
    );
    // runs within one rank may split as long as they sum to eight
    assert!(Board::from_fen("8/8/8/8/8/8/8/44 w - -").is_ok());
}

#[test]
fn evaluation_flips_with_perspective() {
    // the same placement scores opposite values for the two sides to move
    let w = Board::from_fen("k6q/7p/8/8/8/8/P7/K7 w - -").unwrap();
    let b = Board::from_fen("k6q/7p/8/8/8/8/P7/K7 b - -").unwrap();
    assert_eq!(w.material_difference(), b.material_difference());
    assert_eq!(w.material_difference(), -9);
}

#[test]
fn castling_moves_are_generated() {
    let board = Board::from_fen("r3k2r/8/8/8/8/8/8/R3K2R w KQkq -").unwrap();
    let moves = board.all_moves();
    let kingside = moves
        .iter()
        .any(|m| m.from == Pos::try_from("e1").unwrap() && m.to == Pos::try_from("g1").unwrap());
    let queenside = moves
        .iter()
        .any(|m| m.from == Pos::try_from("e1").unwrap() && m.to == Pos::try_from("c1").unwrap());
    assert!(kingside && queenside);
    let mut b2 = board;
    let castle = moves
        .iter()
        .find(|m| m.from == Pos::try_from("e1").unwrap() && m.to == Pos::try_from("g1").unwrap())
        .unwrap();
    b2.apply_move(*castle);
    assert_eq!(
        b2.getp(Pos::try_from("f1").unwrap()),
        Some((Player::White, Piece::Rook))
    );
    assert_eq!(
        b2.getp(Pos::try_from("g1").unwrap()),
        Some((Player::White, Piece::King))
    );
    assert!(!b2.white_kingside_castle && !b2.white_queenside_castle);
}

#[test]
fn promotion_moves_are_expanded() {
    let board = Board::from_fen("k7/6P1/8/8/8/8/8/K7 w - -").unwrap();
    let moves = board.all_moves();
    let promos: Vec<_> = moves
        .iter()
        .filter(|m| m.from == Pos::try_from("g7").unwrap())
        .collect();
    assert_eq!(promos.len(), 4);
    assert!(promos.iter().all(|m| m.promotion.is_some()));
    let mut b2 = board;
    let q = promos
        .iter()
        .find(|m| m.promotion == Some(Piece::Queen))
        .unwrap();
    b2.apply_move(**q);
    assert_eq!(
        b2.getp(Pos::try_from("g8").unwrap()),
        Some((Player::White, Piece::Queen))
    );
}
