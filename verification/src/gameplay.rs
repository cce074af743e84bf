//! The scoreboard and the rules that write to it: coins add up, hazards cost a life,
//! and the run clock starts on the player's first control input.
use vstd::prelude::*;

verus! {

/// The scoreboard of one attempt at the level.
///
/// The run clock's running total is a duration in seconds and is kept by the caller;
/// this records whether it has started.
#[derive(Debug, Clone, Copy)]
pub struct Progress {
    /// Coins picked up this attempt.
    pub coins: u32,
    /// How many coins the level holds, counted while it is built.
    pub total_coins: u32,
    /// Deaths this attempt.
    pub deaths: u32,
    /// Whether the run clock has started advancing.
    pub timer_started: bool,
}

impl Default for Progress {
    fn default() -> (progress: Self)
        ensures
            progress == Progress::fresh(0),
    {
        Progress::new(0)
    }
}

impl Progress {
    /// The scoreboard at the start of an attempt at a level holding `total_coins` coins.
    pub open spec fn fresh(total_coins: u32) -> Progress {
        Progress { coins: 0, total_coins, deaths: 0, timer_started: false }
    }

    /// A fresh scoreboard: nothing collected, nobody dead, clock not started.
    pub fn new(total_coins: u32) -> (progress: Self)
        ensures
            progress == Progress::fresh(total_coins),
    {
        Progress { coins: 0, total_coins, deaths: 0, timer_started: false }
    }

    /// Decides whether the run clock advances this frame.
    ///
    /// The clock waits until the player first touches a control (movement or jump), and
    /// from then on runs every frame it is asked. Returns whether to add this frame's time.
    pub fn timer_runs(&mut self, touching_controls: bool) -> (runs: bool)
        ensures
            final(self).timer_started == (old(self).timer_started || touching_controls),
            runs == final(self).timer_started,
            final(self).coins == old(self).coins,
            final(self).total_coins == old(self).total_coins,
            final(self).deaths == old(self).deaths,
    {
        if !self.timer_started {
            if !touching_controls {
                return false;
            }
            self.timer_started = true;
        }
        true
    }

    /// Counts one coin picked up.
    pub fn collect_coin(&mut self)
        requires
            old(self).coins < u32::MAX,
        ensures
            final(self).coins == old(self).coins + 1,
            final(self).total_coins == old(self).total_coins,
            final(self).deaths == old(self).deaths,
            final(self).timer_started == old(self).timer_started,
    {
        self.coins = self.coins + 1;
    }

    /// Applies the hazard rule: touching a hazard or falling out of the level sends the
    /// player back to the spawn point and counts a death. Returns whether to respawn.
    pub fn hazard_check(&mut self, hit_hazard: bool, fell_out: bool) -> (respawn: bool)
        requires
            (hit_hazard || fell_out) ==> old(self).deaths < u32::MAX,
        ensures
            respawn == (hit_hazard || fell_out),
            final(self).deaths == (if respawn { old(self).deaths + 1 } else { old(self).deaths as int }),
            final(self).coins == old(self).coins,
            final(self).total_coins == old(self).total_coins,
            final(self).timer_started == old(self).timer_started,
    {
        if hit_hazard || fell_out {
            self.deaths = self.deaths + 1;
            true
        } else {
            false
        }
    }

    /// Whether every coin of the level has been picked up.
    pub fn every_coin(&self) -> (all: bool)
        ensures
            all == (self.coins == self.total_coins),
    {
        self.coins == self.total_coins
    }
}

/// How many of a run of frames the clock advances on, when it starts out `started` and
/// `touches[i]` says whether the controls were touched on frame `i`: each frame is
/// decided as [`Progress::timer_runs`] decides it.
pub open spec fn frames_timed(started: bool, touches: Seq<bool>) -> nat
    decreases touches.len(),
{
    if touches.len() == 0 {
        0
    } else {
        let runs = started || touches[0];
        (if runs { 1nat } else { 0nat }) + frames_timed(runs, touches.drop_first())
    }
}

/// A clock that has started advances on every frame, touched or not.
pub proof fn started_clock_runs_every_frame(touches: Seq<bool>)
    ensures
        frames_timed(true, touches) == touches.len(),
    decreases touches.len(),
{
    if touches.len() > 0 {
        started_clock_runs_every_frame(touches.drop_first());
    }
}

/// A clock that has not started stays at zero while nobody touches the controls.
pub proof fn idle_clock_waits(touches: Seq<bool>)
    requires
        forall|i: int| 0 <= i < touches.len() ==> !#[trigger] touches[i],
    ensures
        frames_timed(false, touches) == 0,
    decreases touches.len(),
{
    if touches.len() > 0 {
        assert(!touches[0]);
        idle_clock_waits(touches.drop_first());
    }
}

/// The run clock times exactly the frames from the first touch of the controls on:
/// the frames before it count for nothing, and every frame from it on counts.
pub proof fn clock_times_from_the_first_touch(touches: Seq<bool>, first: int)
    requires
        0 <= first < touches.len(),
        touches[first],
        forall|i: int| 0 <= i < first ==> !#[trigger] touches[i],
    ensures
        frames_timed(false, touches) == touches.len() - first,
    decreases touches.len(),
{
    if first == 0 {
        started_clock_runs_every_frame(touches.drop_first());
    } else {
        assert(!touches[0]);
        let rest = touches.drop_first();
        assert forall|i: int| 0 <= i < first - 1 implies !#[trigger] rest[i] by {
            assert(rest[i] == touches[i + 1]);
        }
        clock_times_from_the_first_touch(rest, first - 1);
    }
}

} // verus!
