//! Win/loss records.
use crate::domain::state::TeamSide;
use vstd::prelude::*;

verus! {

#[derive(Debug, Clone, PartialEq, Eq, Structural)]
pub struct PlayerRecord {
    pub games: u32,
    pub wins: u32,
    pub losses: u32,
}

impl PlayerRecord {
    pub fn empty() -> (r: Self)
        ensures
            r == (PlayerRecord { games: 0, wins: 0, losses: 0 }),
    {
        PlayerRecord { games: 0, wins: 0, losses: 0 }
    }

    /// Counts one game played on `side`: a win when `side` won, a loss otherwise.
    pub fn record_game(&mut self, side: TeamSide, winner: TeamSide)
        requires
            old(self).games < u32::MAX,
            side == winner ==> old(self).wins < u32::MAX,
            side != winner ==> old(self).losses < u32::MAX,
        ensures
            final(self).games == old(self).games + 1,
            side == winner ==> final(self).wins == old(self).wins + 1 && final(self).losses
                == old(self).losses,
            side != winner ==> final(self).losses == old(self).losses + 1 && final(self).wins
                == old(self).wins,
            old(self).games == old(self).wins + old(self).losses ==> final(self).games
                == final(self).wins + final(self).losses,
    {
        self.games += 1;
        if side == winner {
            self.wins += 1;
        } else {
            self.losses += 1;
        }
    }
}

} // verus!
