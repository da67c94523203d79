//! The pace of the game: how long a tick lasts, when the last one was, and
//! whether the game is paused.
//!
//! The timer reads no clock. Its caller tells it the time, in nanoseconds
//! since a moment of the caller's choosing that stays the same for the life of
//! the timer.

use vstd::prelude::*;

verus! {

/// The number of nanoseconds in a millisecond.
pub const NANOS_PER_MILLI: u128 = 1_000_000;

/// The pacing state of a game.
pub struct Timer {
    start: u128,
    last_update: u128,
    tick_millis: u128,
    count_of_decreasing: u32,
    is_paused: bool,
}

/// The whole milliseconds that passed from `since` to `now`, and 0 when `now`
/// lies before `since`.
pub open spec fn elapsed_millis(since: u128, now: u128) -> int {
    if now >= since {
        (now - since) / (NANOS_PER_MILLI as int)
    } else {
        0
    }
}

impl Timer {
    /// The time at which the timer was made.
    pub closed spec fn started(&self) -> u128 {
        self.start
    }

    /// The time of the last tick.
    pub closed spec fn last(&self) -> u128 {
        self.last_update
    }

    /// The length of a tick in milliseconds.
    pub closed spec fn speed(&self) -> u128 {
        self.tick_millis
    }

    /// Whether the game is paused.
    pub closed spec fn paused(&self) -> bool {
        self.is_paused
    }

    /// How often the tick has been shortened.
    pub closed spec fn slowdowns(&self) -> u32 {
        self.count_of_decreasing
    }

    /// A running timer made at time `now`, with ticks of `tick_millis`
    /// milliseconds.
    pub fn new(tick_millis: u128, now: u128) -> (r: Self)
        ensures
            r.started() == now,
            r.last() == now,
            r.speed() == tick_millis,
            !r.paused(),
            r.slowdowns() == 0,
    {
        Timer { last_update: now, start: now, tick_millis, count_of_decreasing: 0, is_paused: false }
    }

    /// Whether a tick is due at time `now`: the game is not paused and a whole
    /// tick has passed since the last one. A tick that is due is taken: `now`
    /// becomes the time of the last tick.
    pub fn is_ready(&mut self, now: u128) -> (r: bool)
        ensures
            r == (!old(self).paused() && elapsed_millis(old(self).last(), now) >= old(
                self,
            ).speed()),
            final(self).last() == if r {
                now
            } else {
                old(self).last()
            },
            final(self).started() == old(self).started(),
            final(self).speed() == old(self).speed(),
            final(self).paused() == old(self).paused(),
            final(self).slowdowns() == old(self).slowdowns(),
    {
        let elapsed = if now >= self.last_update {
            (now - self.last_update) / NANOS_PER_MILLI
        } else {
            0
        };
        if !self.is_paused && elapsed >= self.tick_millis {
            self.last_update = now;
            return true;
        }
        return false;
    }

    /// Sets the tick to its new length `tick_millis` and counts the change.
    pub fn decrease_tick_millis(&mut self, tick_millis: u128)
        requires
            old(self).slowdowns() < u32::MAX,
        ensures
            final(self).speed() == tick_millis,
            final(self).slowdowns() == old(self).slowdowns() + 1,
            final(self).started() == old(self).started(),
            final(self).last() == old(self).last(),
            final(self).paused() == old(self).paused(),
    {
        self.count_of_decreasing += 1;
        self.tick_millis = tick_millis;
    }

    /// Pauses the game.
    pub fn pause(&mut self)
        ensures
            final(self).paused(),
            final(self).started() == old(self).started(),
            final(self).last() == old(self).last(),
            final(self).speed() == old(self).speed(),
            final(self).slowdowns() == old(self).slowdowns(),
    {
        self.is_paused = true;
    }

    /// Lets a paused game go on.
    pub fn resume(&mut self)
        ensures
            !final(self).paused(),
            final(self).started() == old(self).started(),
            final(self).last() == old(self).last(),
            final(self).speed() == old(self).speed(),
            final(self).slowdowns() == old(self).slowdowns(),
    {
        self.is_paused = false;
    }

    /// Pauses a running game and lets a paused one go on.
    pub fn toggle_pause(&mut self)
        ensures
            final(self).paused() == !old(self).paused(),
            final(self).started() == old(self).started(),
            final(self).last() == old(self).last(),
            final(self).speed() == old(self).speed(),
            final(self).slowdowns() == old(self).slowdowns(),
    {
        if self.is_paused {
            self.resume()
        } else {
            self.pause()
        }
    }

    /// The length of a tick in milliseconds.
    pub fn get_speed(&self) -> (r: u128)
        ensures
            r == self.speed(),
    {
        self.tick_millis
    }

    /// How often the tick has been shortened.
    pub fn count_of_decreasing(&self) -> (r: u32)
        ensures
            r == self.slowdowns(),
    {
        self.count_of_decreasing
    }

    /// Puts the time of the last tick back to the time the timer was made.
    pub fn reset_last_update(&mut self)
        ensures
            final(self).last() == old(self).started(),
            final(self).started() == old(self).started(),
            final(self).speed() == old(self).speed(),
            final(self).paused() == old(self).paused(),
            final(self).slowdowns() == old(self).slowdowns(),
    {
        self.last_update = self.start;
    }
}

} // verus!
