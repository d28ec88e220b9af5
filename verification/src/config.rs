//! Tuning values handed to every simulation step.

use vstd::prelude::*;

verus! {

/// Milliseconds between two enemy rockets at a pace of one.
pub const BASE_COOLDOWN_MILLIS: u64 = 3000;

/// The tuning of one game: how fast things move, how finely time is
/// resolved, and the health each side starts with.
#[derive(Clone, Copy, Debug, PartialEq, Eq, Structural)]
pub struct Config {
    pub speed: u16,
    pub time_resolution: u16,
    pub ship_health: i32,
    pub enemy_health: i32,
}

impl Config {
    /// Speed and time resolution are positive.
    pub open spec fn wf(&self) -> bool {
        self.speed > 0 && self.time_resolution > 0
    }

    pub fn is_wf(&self) -> (ok: bool)
        ensures
            ok == self.wf(),
    {
        self.speed > 0 && self.time_resolution > 0
    }

    /// Speed times time resolution: pixels the background scrolls per frame,
    /// and the divisor of the enemy's reload time.
    pub open spec fn spec_pace(&self) -> int {
        self.speed * self.time_resolution
    }

    pub fn pace(&self) -> (pace: u32)
        ensures
            pace == self.spec_pace(),
    {
        assert(self.speed * self.time_resolution <= 0xffff * 0xffff) by (nonlinear_arith)
            requires
                self.speed <= 0xffff,
                self.time_resolution <= 0xffff,
        ;
        self.speed as u32 * self.time_resolution as u32
    }

    /// Milliseconds the enemy waits between two rockets.
    pub open spec fn spec_cooldown_millis(&self) -> int {
        BASE_COOLDOWN_MILLIS as int / self.spec_pace()
    }

    pub fn cooldown_millis(&self) -> (millis: u64)
        requires
            self.wf(),
        ensures
            millis == self.spec_cooldown_millis(),
    {
        let pace: u32 = self.pace();
        assert(pace > 0) by (nonlinear_arith)
            requires
                pace == self.speed * self.time_resolution,
                self.speed > 0,
                self.time_resolution > 0,
        ;
        BASE_COOLDOWN_MILLIS / pace as u64
    }
}

impl Default for Config {
    /// Unit speed and time resolution, three health points for the ship and
    /// a hundred for the enemy.
    fn default() -> (config: Config)
        ensures
            config == (Config { speed: 1, time_resolution: 1, ship_health: 3, enemy_health: 100 }),
    {
        Config { speed: 1, time_resolution: 1, ship_health: 3, enemy_health: 100 }
    }
}

} // verus!
