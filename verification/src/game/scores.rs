//! Score easing: the displayed score chases the score that is owed.

use crate::engine::math::{saturate, saturated};
use crate::game::{MyGame, Player, World};
use vstd::prelude::*;

verus! {

/// The displayed score one tick later. While it is below what is owed it
/// rises by 25 if more than 50 are missing and by 5 otherwise, so it may
/// pass what is owed by up to 4. A displayed score that has reached what
/// is owed stays.
pub open spec fn eased(score: int, owed: int) -> int {
    if score < owed {
        if owed - score > 50 {
            score + 25
        } else {
            saturated(score + 5)
        }
    } else {
        score
    }
}

/// A player with the displayed score eased.
pub open spec fn player_eased(p: Player) -> Player {
    Player { score: eased(p.score as int, p.next_score as int) as i32, ..p }
}

/// The world after the scores' part of a tick.
pub open spec fn scores_phase(w: World) -> World {
    World { player_1: player_eased(w.player_1), player_2: player_eased(w.player_2), ..w }
}

/// A displayed score that equals what is owed never changes again
/// while nothing more is owed.
pub proof fn lemma_settled_score_stays(p: Player, ticks: nat)
    requires
        p.score == p.next_score,
    ensures
        eased_for(p, ticks) == p,
    decreases ticks,
{
    if ticks > 0 {
        lemma_settled_score_stays(p, (ticks - 1) as nat);
    }
}

/// A player after `ticks` ticks of score easing.
pub open spec fn eased_for(p: Player, ticks: nat) -> Player
    decreases ticks,
{
    if ticks == 0 {
        p
    } else {
        player_eased(eased_for(p, (ticks - 1) as nat))
    }
}

/// Easing never lowers the displayed score, never raises it by more than
/// 25, never carries it more than 4 past what is owed, and leaves it alone
/// once it is not below what is owed.
pub proof fn lemma_eased_bounds(score: int, owed: int)
    requires
        -0x8000_0000 <= score <= 0x7fff_ffff,
        -0x8000_0000 <= owed <= 0x7fff_ffff,
    ensures
        score <= eased(score, owed) <= score + 25,
        eased(score, owed) <= 0x7fff_ffff,
        score >= owed ==> eased(score, owed) == score,
        score < owed ==> eased(score, owed) > score || score == 0x7fff_ffff,
        score < owed ==> eased(score, owed) <= owed + 4,
{
}

/// Eases one displayed score.
pub fn ease(score: i32, owed: i32) -> (next: i32)
    ensures
        next == eased(score as int, owed as int),
{
    if score < owed {
        let delta: i64 = owed as i64 - score as i64;
        if delta > 50 {
            score + 25
        } else {
            saturate(score as i64 + 5)
        }
    } else {
        score
    }
}

impl MyGame {
    /// The scores' part of a tick: both displayed scores move toward what
    /// the players are owed.
    pub fn update_scores(&mut self)
        ensures
            final(self)@ == scores_phase(old(self)@),
            final(self).same_assets(old(self)),
    {
        self.player_1.score = ease(self.player_1.score, self.player_1.next_score);
        self.player_2.score = ease(self.player_2.score, self.player_2.next_score);
    }
}

} // verus!
