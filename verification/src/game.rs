//! One game as a player sees it: the session, the score, the pace and the best
//! score, and what a key press and a tick do to them.
//!
//! The game draws nothing, reads no clock and stores nothing. Its caller
//! tells it the time and does what `update` hands back.

use vstd::prelude::*;
use crate::ctrl::SnakeCtrl;
use crate::err::{SnakeCtrlErr, SnakeCtrlResult};
use crate::geometry::Direction;
use crate::record::Record;
use crate::timer::Timer;

verus! {

/// The length of a tick, in milliseconds, that a game starts again with.
pub const RESTART_TICK_MILLIS: u128 = 200;

/// A key as far as the game tells keys apart.
#[derive(Copy, Clone, Eq, PartialEq, Debug, Structural)]
pub enum Key {
    Right,
    Left,
    Up,
    Down,
    Space,
    Other,
}

/// What a tick did, and with it what is left for the caller to do.
#[derive(Copy, Clone, Eq, PartialEq, Debug)]
pub enum Update {
    /// The snake moved. Nothing is left to do.
    Moved,
    /// The snake ate and the score was counted. The caller shortens the tick.
    Ate,
    /// The snake died of `cause` and the game is over and paused. Where
    /// `store` holds a score, it is the new best score and the caller stores
    /// it.
    GameOver { cause: SnakeCtrlErr, store: Option<u64> },
    /// The tick failed in a way that is no part of a game. The caller reports
    /// it.
    Fault(SnakeCtrlErr),
}

impl Update {
    /// What the tick of the session returned, as far as the update tells.
    pub open spec fn tick_result(self) -> SnakeCtrlResult<bool> {
        match self {
            Update::Moved => Ok(false),
            Update::Ate => Ok(true),
            Update::GameOver { cause, store } => Err(cause),
            Update::Fault(e) => Err(e),
        }
    }
}

/// Whether an error of a tick ends the game, as running into the body or
/// into a wall does.
pub open spec fn ends_game(e: SnakeCtrlErr) -> bool {
    e == SnakeCtrlErr::SnakeAteItself || e == SnakeCtrlErr::SnakeHitTheWall
}

/// The state of one game.
pub struct App {
    pub snake_ctrl: SnakeCtrl,
    pub score: u64,
    pub timer: Timer,
    pub record: Record,
    pub is_game_over: bool,
}

impl App {
    /// What holds of a game at all times: its session is well formed.
    pub open spec fn wf(&self) -> bool {
        self.snake_ctrl.wf()
    }

    /// The direction a key asks for, if it asks for one.
    pub open spec fn direction_of(key: Key) -> Option<Direction> {
        match key {
            Key::Right => Some(Direction::Right),
            Key::Left => Some(Direction::Left),
            Key::Up => Some(Direction::Top),
            Key::Down => Some(Direction::Bottom),
            _ => None,
        }
    }

    /// Whether `self` is the game `pre` started again at time `now`: a fresh
    /// board, the initial direction, no score, a running timer with the
    /// restart tick, and the best score as it was.
    pub open spec fn restarted_from(&self, pre: App, now: u128) -> bool {
        &&& self.snake_ctrl.wf()
        &&& self.snake_ctrl.config() == pre.snake_ctrl.config()
        &&& self.snake_ctrl.board().fresh(pre.snake_ctrl.config())
        &&& self.snake_ctrl.heading() == SnakeCtrl::initial_direction()
        &&& self.snake_ctrl.buffered() == SnakeCtrl::initial_direction()
        &&& self.score == 0
        &&& self.timer.speed() == RESTART_TICK_MILLIS
        &&& self.timer.started() == now
        &&& self.timer.last() == now
        &&& !self.timer.paused()
        &&& self.timer.slowdowns() == 0
        &&& self.record == pre.record
        &&& !self.is_game_over
    }

    /// Reacts to a key pressed at time `now`. An arrow key asks the session
    /// for its direction and hands back the session's answer. The space bar
    /// starts a game that is over again, and pauses or resumes one that is not.
    /// Any other key does nothing.
    pub fn handle_key_press(&mut self, key: Key, now: u128) -> (r: SnakeCtrlResult<()>)
        requires
            old(self).wf(),
        ensures
            final(self).wf(),
            Self::direction_of(key) matches Some(d) ==> {
                &&& r is Err <==> old(self).snake_ctrl.config().fail_on_revert && d == old(
                    self,
                ).snake_ctrl.heading().opposite()
                &&& r matches Err(e) ==> e == SnakeCtrlErr::SnakeAteItself
                &&& final(self).snake_ctrl.buffered() == if d == old(
                    self,
                ).snake_ctrl.heading().opposite() {
                    old(self).snake_ctrl.buffered()
                } else {
                    d
                }
                &&& final(self).snake_ctrl.heading() == old(self).snake_ctrl.heading()
                &&& final(self).snake_ctrl.board() == old(self).snake_ctrl.board()
                &&& final(self).snake_ctrl.config() == old(self).snake_ctrl.config()
                &&& final(self).score == old(self).score
                &&& final(self).timer == old(self).timer
                &&& final(self).record == old(self).record
                &&& final(self).is_game_over == old(self).is_game_over
            },
            key == Key::Space && old(self).is_game_over ==> r is Ok && final(self).restarted_from(
                *old(self),
                now,
            ),
            key == Key::Space && !old(self).is_game_over ==> {
                &&& r is Ok
                &&& final(self).snake_ctrl == old(self).snake_ctrl
                &&& final(self).score == old(self).score
                &&& final(self).record == old(self).record
                &&& !final(self).is_game_over
                &&& final(self).timer.paused() == !old(self).timer.paused()
                &&& final(self).timer.speed() == old(self).timer.speed()
                &&& final(self).timer.started() == old(self).timer.started()
                &&& final(self).timer.last() == old(self).timer.last()
                &&& final(self).timer.slowdowns() == old(self).timer.slowdowns()
            },
            key == Key::Other ==> r is Ok && *final(self) == *old(self),
    {
        match key {
            Key::Right => self.snake_ctrl.direction_to(Direction::Right),
            Key::Left => self.snake_ctrl.direction_to(Direction::Left),
            Key::Up => self.snake_ctrl.direction_to(Direction::Top),
            Key::Down => self.snake_ctrl.direction_to(Direction::Bottom),
            Key::Space => {
                if self.is_game_over {
                    self.restart_game(now);
                } else {
                    self.timer.toggle_pause();
                }
                Ok(())
            },
            Key::Other => Ok(()),
        }
    }

    /// Starts the game again at time `now`.
    pub fn restart_game(&mut self, now: u128)
        requires
            old(self).wf(),
        ensures
            final(self).restarted_from(*old(self), now),
    {
        self.score = 0;
        self.timer = Timer::new(RESTART_TICK_MILLIS, now);
        self.snake_ctrl.restart().unwrap();
        self.is_game_over = false;
    }

    /// Lets one tick pass. The session moves the snake. When the snake ate,
    /// the score goes up by one and becomes the running score of the record.
    /// When the snake ran into itself or a wall, the game is over: the timer
    /// is paused and the running score becomes the best score unless it is
    /// below it. Any other failure changes nothing but what the session did.
    pub fn update(&mut self) -> (r: Update)
        requires
            old(self).wf(),
            old(self).score < u64::MAX,
        ensures
            final(self).wf(),
            final(self).snake_ctrl.heading() == old(self).snake_ctrl.buffered(),
            final(self).snake_ctrl.buffered() == old(self).snake_ctrl.buffered(),
            final(self).snake_ctrl.config() == old(self).snake_ctrl.config(),
            old(self).snake_ctrl.board().steps_to(
                old(self).snake_ctrl.buffered(),
                final(self).snake_ctrl.board(),
                r.tick_result(),
            ),
            r is GameOver <==> r.tick_result() is Err && ends_game(r.tick_result()->Err_0),
            r is Fault <==> r.tick_result() is Err && !ends_game(r.tick_result()->Err_0),
            final(self).score == if r is Ate {
                old(self).score + 1
            } else {
                old(self).score as int
            },
            final(self).record.current() == if r is Ate {
                (old(self).score + 1) as u64
            } else {
                old(self).record.current()
            },
            final(self).record.best() == if r is GameOver && old(self).record.current() >= old(
                self,
            ).record.best() {
                old(self).record.current()
            } else {
                old(self).record.best()
            },
            r matches Update::GameOver { cause, store } ==> store == if old(
                self,
            ).record.current() < old(self).record.best() {
                None::<u64>
            } else {
                Some(old(self).record.current())
            },
            final(self).is_game_over == (old(self).is_game_over || r is GameOver),
            final(self).timer.paused() == (old(self).timer.paused() || r is GameOver),
            final(self).timer.speed() == old(self).timer.speed(),
            final(self).timer.started() == old(self).timer.started(),
            final(self).timer.last() == old(self).timer.last(),
            final(self).timer.slowdowns() == old(self).timer.slowdowns(),
    {
        match self.snake_ctrl.next_tick() {
            Ok(is_ate) => {
                if is_ate {
                    self.score += 1;
                    self.record.set_current_score(self.score);
                    Update::Ate
                } else {
                    Update::Moved
                }
            },
            Err(e) => match e {
                SnakeCtrlErr::SnakeAteItself | SnakeCtrlErr::SnakeHitTheWall => {
                    self.is_game_over = true;
                    let store = self.record.write();
                    self.timer.pause();
                    Update::GameOver { cause: e, store }
                },
                _ => Update::Fault(e),
            },
        }
    }
}

} // verus!
