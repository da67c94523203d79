//! The best score: the one a game starts with, the score of the running game,
//! and the rule that decides when a new best score is to be stored.

use vstd::prelude::*;

verus! {

/// The best score known and the score of the running game.
pub struct Record {
    /// The best score.
    pub score: u64,
    current_score: u64,
}

impl Record {
    /// The best score.
    pub closed spec fn best(&self) -> u64 {
        self.score
    }

    /// The score of the running game.
    pub closed spec fn current(&self) -> u64 {
        self.current_score
    }

    /// A record that starts from the best score stored, or from 0 when none
    /// is.
    pub fn init(stored: Option<u64>) -> (r: Self)
        ensures
            r.best() == match stored {
                Some(s) => s,
                None => 0,
            },
            r.current() == 0,
    {
        let score = match stored {
            Some(s) => s,
            None => 0,
        };
        Record { score, current_score: 0 }
    }

    /// Sets the score of the running game.
    pub fn set_current_score(&mut self, val: u64)
        ensures
            final(self).current() == val,
            final(self).best() == old(self).best(),
    {
        self.current_score = val;
    }

    /// Makes the running score the best score unless it is below it. Returns
    /// the score that is to be stored, or `None` when the best score stands.
    pub fn write(&mut self) -> (r: Option<u64>)
        ensures
            final(self).current() == old(self).current(),
            final(self).best() == if old(self).current() < old(self).best() {
                old(self).best()
            } else {
                old(self).current()
            },
            r == if old(self).current() < old(self).best() {
                None::<u64>
            } else {
                Some(old(self).current())
            },
    {
        if self.current_score < self.score {
            return None;
        }
        self.score = self.current_score;
        Some(self.current_score)
    }
}

} // verus!
