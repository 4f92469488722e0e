use vstd::prelude::*;

use crate::attack::spec_in_check;
use crate::board::Board;
use crate::movegen::spec_all_moves;
use crate::player::Player;
use crate::repr::lemma_wf_disjoint;

verus! {

/// Why a finished game was won.
#[derive(Debug, Clone, Copy, PartialEq, Eq, Structural)]
pub enum WinReason {
    Checkmate,
    Resignation,
}

/// Why a finished game was drawn.
#[derive(Debug, Clone, Copy, PartialEq, Eq, Structural)]
pub enum DrawReason {
    Stalemate,
    InsufficientMaterial,
    ThreefoldRepetition,
    FiftyMoveRule,
    Agreement,
}

/// The outcome of a finished game.
#[derive(Debug, Clone, Copy, PartialEq, Eq, Structural)]
pub enum GameResult {
    Win { winner: Player, win: WinReason },
    Draw { draw: DrawReason },
}

impl Board {
    /// Returns the game's outcome: `None` while the player to move has a
    /// legal move (decided by the early-exit existence check, without
    /// building the move list); otherwise checkmate for the opponent if
    /// that player is in check, and stalemate if not.
    pub fn game_result(&self) -> (r: Option<GameResult>)
        requires
            self.wf(),
        ensures
            r is None <==> spec_all_moves(*self).len() > 0,
            spec_all_moves(*self).len() == 0 && spec_in_check(*self) ==> r == Some(
                GameResult::Win {
                    winner: self.current_player.spec_flip(),
                    win: WinReason::Checkmate,
                },
            ),
            spec_all_moves(*self).len() == 0 && !spec_in_check(*self) ==> r == Some(
                GameResult::Draw { draw: DrawReason::Stalemate },
            ),
    {
        proof {
            lemma_wf_disjoint(self.repr);
        }
        if self.has_any_move() {
            None
        } else if self.in_check() {
            Some(GameResult::Win { winner: self.current_player.flip(), win: WinReason::Checkmate })
        } else {
            Some(GameResult::Draw { draw: DrawReason::Stalemate })
        }
    }
}

} // verus!
