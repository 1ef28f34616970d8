//! Session-wide score state. The score only ever grows; nothing in the
//! current rule set is wired to it yet, so `add` is the extension point
//! through which future rules award points.

use vstd::prelude::*;

verus! {

/// The player's score for one session.
#[derive(Debug, Clone, Copy, PartialEq, Eq, Structural)]
pub struct Score {
    pub score: u32,
}

impl Score {
    /// A fresh session starts with no points.
    pub fn new() -> (s: Score)
        ensures
            s.score == 0,
    {
        Score { score: 0 }
    }

    /// Award points. The score never decreases and saturates rather than
    /// wrapping at the top of its range.
    pub fn add(&mut self, points: u32)
        ensures
            final(self).score == if old(self).score + points <= u32::MAX {
                (old(self).score + points) as u32
            } else {
                u32::MAX
            },
            final(self).score >= old(self).score,
    {
        if points > u32::MAX - self.score {
            self.score = u32::MAX;
        } else {
            self.score = self.score + points;
        }
    }
}

} // verus!
