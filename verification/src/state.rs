//! The coarse game state, the run-scoped tunables and the score
//! bookkeeping.
//!
//! Rate factors are fixed-point hundredths: a speed factor of 100
//! means normal speed, 200 double speed. The difficulty rule raises
//! the speed factor by `SPEED_STEP` hundredths for every
//! `SCORE_PER_STEP` points of score.

use vstd::prelude::*;
use crate::gate::PeriodicGate;

verus! {

/// Interval of the gated vertical advance, in hundredths of a
/// millisecond: one tile every 80 ms at normal speed.
pub const MOVE_INTERVAL: u64 = 8000;

/// Interval of score accrual, in hundredths of a millisecond: one
/// accrual per second of unscaled wall time.
pub const SCORE_INTERVAL: u64 = 100000;

/// The rate factor meaning "unscaled", in hundredths.
pub const UNSCALED: u64 = 100;

/// The speed factor of a fresh run, in hundredths.
pub const BASE_SPEED_FACTOR: u64 = 100;

/// The constant boost multiplier, in hundredths: boosting doubles the
/// advance rate.
pub const BOOST_FACTOR: u64 = 200;

/// Hundredths added to the speed factor per difficulty step.
pub const SPEED_STEP: u64 = 2;

/// Score needed for one difficulty step.
pub const SCORE_PER_STEP: u64 = 1000;

/// Points added by one score accrual tick.
pub const SCORE_INCREMENT: usize = 100;

/// The largest speed factor the difficulty rule can ever produce.
pub const MAX_SPEED_FACTOR: u64 = BASE_SPEED_FACTOR + (u64::MAX / SCORE_PER_STEP) * SPEED_STEP;

/// The two coarse states: the menu, and a run being played.
#[derive(Debug, Clone, Copy, PartialEq, Eq, Structural, Hash)]
pub enum GameState {
    /// The menu is shown; the world holds no player and no obstacles.
    Menu,
    /// A run is in progress.
    Playing,
}

/// The run-scoped tunables: the vertical-advance gate, the boost flag
/// and the rate factors. Reset to defaults whenever a run starts or
/// ends.
#[derive(Clone, Copy, PartialEq, Eq, Structural, Debug)]
pub struct GameData {
    /// The timer pacing the vertical advance.
    pub move_timer: PeriodicGate,
    /// Whether the boost control is currently held.
    pub is_boosting: bool,
    /// The constant boost multiplier, in hundredths.
    pub boost_factor: u64,
    /// The current speed factor, in hundredths.
    pub speed_factor: u64,
}

/// The tunables of a fresh run: normal speed, boost released, an
/// empty advance gate.
pub open spec fn game_data_default() -> GameData {
    GameData {
        move_timer: PeriodicGate { interval: MOVE_INTERVAL, accumulated: 0 },
        is_boosting: false,
        boost_factor: BOOST_FACTOR,
        speed_factor: BASE_SPEED_FACTOR,
    }
}

impl GameData {
    /// The tunables are well formed when the advance gate has its
    /// fixed interval, the boost multiplier its fixed value, and the
    /// speed factor lies in the range the difficulty rule produces.
    pub open spec fn wf(self) -> bool {
        &&& self.move_timer.wf()
        &&& self.move_timer.interval == MOVE_INTERVAL
        &&& self.boost_factor == BOOST_FACTOR
        &&& BASE_SPEED_FACTOR <= self.speed_factor <= MAX_SPEED_FACTOR
    }

    /// The scale the advance gate ticks at: the speed factor, doubled
    /// by the boost multiplier while boosting.
    pub open spec fn scale(self) -> int {
        if self.is_boosting {
            (self.boost_factor as int) * (self.speed_factor as int) / (UNSCALED as int)
        } else {
            self.speed_factor as int
        }
    }

    /// Fresh run tunables.
    pub fn new() -> (data: Self)
        ensures
            data == game_data_default(),
            data.wf(),
    {
        GameData {
            move_timer: PeriodicGate::new(MOVE_INTERVAL),
            is_boosting: false,
            boost_factor: BOOST_FACTOR,
            speed_factor: BASE_SPEED_FACTOR,
        }
    }

    /// The scale the advance gate ticks at this frame.
    pub fn current_scale(&self) -> (scale: u64)
        requires
            self.wf(),
        ensures
            scale == self.scale(),
            scale <= (BOOST_FACTOR as int) * (MAX_SPEED_FACTOR as int) / (UNSCALED as int),
    {
        if self.is_boosting {
            self.boost_factor * self.speed_factor / UNSCALED
        } else {
            self.speed_factor
        }
    }
}

impl Default for GameData {
    /// Fresh run tunables.
    fn default() -> (data: Self)
        ensures
            data == game_data_default(),
    {
        Self::new()
    }
}

/// The score bookkeeping: the running score of the current run and
/// the best score committed by any past run.
#[derive(Clone, Copy, PartialEq, Eq, Structural, Debug)]
pub struct Scoreboard {
    /// The score of the current run.
    pub score: usize,
    /// The best committed score; survives run resets.
    pub highscore: usize,
}

impl Default for Scoreboard {
    /// An empty scoreboard.
    fn default() -> (board: Self)
        ensures
            board.score == 0,
            board.highscore == 0,
    {
        Scoreboard { score: 0, highscore: 0 }
    }
}

} // verus!
