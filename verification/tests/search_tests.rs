use chess_core::{search, Board};

#[test]
fn only_one_move() {
    let mut board =
        Board::from_fen("rnbq1bnr/1pppk1pp/p2Pp3/4P1pQ/2B1N3/8/PPP2PPP/R3K1NR b KQ -").unwrap();
    let moves = board.all_moves();
    println!("{moves:?}");
    let m = search(&board, 3, true, || 0).unwrap();
    assert_eq!(m.format(board, moves.as_slice()).to_string(), "cxd6");
    board.apply_move(m);
}

#[test]
fn single_reply_is_returned() {
    // the king in the corner has exactly one legal move at any depth
    let board = Board::from_fen("k7/8/8/8/8/8/1R6/K6R b - -").unwrap();
    let moves = board.all_moves();
    assert_eq!(moves.len(), 1);
    for depth in 0..5 {
        let m = search(&board, depth, true, || 7).unwrap();
        assert_eq!(m, moves[0]);
    }
}

#[test]
fn search_no_moves_when_game_over() {
    // checkmated: no move is returned
    let board = Board::from_fen("k7/8/8/8/8/8/R7/1R5K b - -").unwrap();
    assert_eq!(search(&board, 3, true, || 3), None);
}
