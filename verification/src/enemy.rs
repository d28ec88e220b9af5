//! The enemy: it faces the player, wanders, bounces off its limits and
//! fires whenever it has reloaded.

use vstd::prelude::*;
use crate::chance::draw;
use crate::config::Config;
use crate::geometry::{Bounds, Hitbox, Size};
use crate::rocket::{all_animated, animate_all, prune, surviving, Heading, Rocket};

verus! {

/// Smallest step size the enemy picks after firing.
pub const MIN_STEP: u16 = 2;

/// The step size the enemy picks after firing stays below this.
pub const STEP_LIMIT: u16 = 5;

/// The wander rolls are drawn below this.
pub const ROLL_LIMIT: u16 = 100;

/// The health at which the enemy's health bar is as wide as the enemy.
pub const ENEMY_BAR_FULL: i64 = 100;

/// The enemy's random walk: which way it currently moves along each axis and
/// how far per frame. With `right` set it moves toward smaller x, with `up`
/// set toward larger y.
#[derive(Clone, Copy, Debug, PartialEq, Eq, Structural)]
pub struct MovementState {
    pub right: bool,
    pub up: bool,
    pub step: u16,
}

/// The numbers one frame of wandering draws.
#[derive(Clone, Copy, Debug, PartialEq, Eq, Structural)]
pub struct Rolls {
    /// The next step size; used only in a frame in which the enemy fires.
    pub step: u16,
    /// The vertical direction flips when this is a multiple of three.
    pub vertical: u16,
    /// The horizontal direction flips when this is even.
    pub horizontal: u16,
}

impl Rolls {
    /// The rolls lie in the ranges they are drawn from.
    pub open spec fn in_range(&self) -> bool {
        &&& MIN_STEP <= self.step < STEP_LIMIT
        &&& self.vertical < ROLL_LIMIT
        &&& self.horizontal < ROLL_LIMIT
    }
}

/// The enemy as the simulation holds it.
pub struct Enemy {
    pub hitbox: Hitbox,
    /// Where the enemy faces, in thousandths of a degree.
    pub angle: i32,
    pub life: i32,
    pub children: Vec<Rocket>,
    /// The time in milliseconds at which the current reload began.
    pub rocket_cooldown: u64,
    pub movement: MovementState,
    /// The footprint of the rockets it fires.
    pub rocket_size: Size,
}

/// An enemy with its rockets as a sequence.
pub struct EnemyView {
    pub hitbox: Hitbox,
    pub angle: i32,
    pub life: i32,
    pub children: Seq<Rocket>,
    pub rocket_cooldown: u64,
    pub movement: MovementState,
    pub rocket_size: Size,
}

impl View for Enemy {
    type V = EnemyView;

    open spec fn view(&self) -> EnemyView {
        EnemyView {
            hitbox: self.hitbox,
            angle: self.angle,
            life: self.life,
            children: self.children@,
            rocket_cooldown: self.rocket_cooldown,
            movement: self.movement,
            rocket_size: self.rocket_size,
        }
    }
}

impl EnemyView {
    /// An enemy centred horizontally on `x` with its top edge at `y`, at full
    /// health, facing angle zero, with no rockets and a reload that begins at
    /// `now`. It starts out moving toward smaller x and smaller y, one pixel
    /// per frame.
    pub open spec fn initial(x: i32, y: i32, size: Size, rocket_size: Size, config: Config, now: u64) -> EnemyView {
        EnemyView {
            hitbox: Hitbox { x: (x - size.width / 2) as i32, y, size },
            angle: 0,
            life: config.enemy_health,
            children: Seq::empty(),
            rocket_cooldown: now,
            movement: MovementState { right: true, up: false, step: 1 },
            rocket_size,
        }
    }

    /// The enemy with every rocket one frame further.
    pub open spec fn animated(self, config: Config) -> EnemyView {
        EnemyView { children: all_animated(self.children, config), ..self }
    }

    /// The enemy without its expired rockets.
    pub open spec fn pruned(self) -> EnemyView {
        EnemyView { children: surviving(self.children), ..self }
    }

    /// The health to show: the health left, and zero once it is below zero.
    pub open spec fn shown_life(self) -> int {
        if self.life > 0 {
            self.life as int
        } else {
            0
        }
    }

    /// The length of the health bar: the enemy's width for every hundred
    /// health points left to show, rounded down.
    pub open spec fn health_bar(self) -> int {
        self.shown_life() * self.hitbox.size.width / (ENEMY_BAR_FULL as int)
    }

    /// Milliseconds since the reload began; zero if `now` lies before it.
    pub open spec fn elapsed(self, now: u64) -> int {
        if now >= self.rocket_cooldown {
            now - self.rocket_cooldown
        } else {
            0
        }
    }

    /// Whether the reload time has passed at `now`.
    pub open spec fn reloaded(self, now: u64, config: Config) -> bool {
        self.elapsed(now) >= config.spec_cooldown_millis()
    }

    /// The top-left corner after it is brought inside `bounds` and then moved
    /// by one step along both current directions. The result may lie outside
    /// `bounds` by up to a step.
    pub open spec fn wandered(self, bounds: Bounds) -> (int, int) {
        let (x, y) = bounds.spec_restrict(self.hitbox.x as int, self.hitbox.y as int);
        (
            if self.movement.right {
                x - self.movement.step
            } else {
                x + self.movement.step
            },
            if self.movement.up {
                y + self.movement.step
            } else {
                y - self.movement.step
            },
        )
    }

    /// The rocket fired from the wandered position: it points a quarter turn
    /// back from `facing` and lives until it passes the screen's height.
    pub open spec fn shot(self, facing: Heading, screen: Size) -> Rocket {
        let (x, y) = self.wandered(Bounds::spec_around(screen, self.hitbox.size));
        Rocket {
            hitbox: Hitbox { x: x as i32, y: y as i32, size: self.rocket_size },
            heading: facing.spec_quarter_back(),
            lifetime: screen.height as i32,
        }
    }

    /// The enemy one frame later, given where it faces, the time, and the
    /// numbers drawn for this frame.
    pub open spec fn moved(self, facing: Heading, now: u64, screen: Size, config: Config, rolls: Rolls) -> EnemyView {
        let bounds = Bounds::spec_around(screen, self.hitbox.size);
        let (wx, wy) = self.wandered(bounds);
        let (x, y) = bounds.spec_restrict(wx, wy);
        let fires = self.reloaded(now, config);
        let turns_sideways = (rolls.horizontal % 2 == 0) != (x == bounds.min_x || x == bounds.max_x);
        let turns_vertically = (rolls.vertical % 3 == 0) != (y == bounds.min_y || y == bounds.max_y);
        EnemyView {
            hitbox: Hitbox { x: x as i32, y: y as i32, size: self.hitbox.size },
            angle: facing.angle,
            life: self.life,
            children: if fires {
                self.children.push(self.shot(facing, screen))
            } else {
                self.children
            },
            rocket_cooldown: if fires {
                now
            } else {
                self.rocket_cooldown
            },
            movement: MovementState {
                right: self.movement.right != turns_sideways,
                up: self.movement.up != turns_vertically,
                step: if fires {
                    rolls.step
                } else {
                    self.movement.step
                },
            },
            rocket_size: self.rocket_size,
        }
    }
}

impl Enemy {
    /// An enemy centred horizontally on `x` with its top edge at `y`, at full
    /// health, with no rockets and a reload that begins at `now`.
    pub fn new(x: i32, y: i32, size: Size, rocket_size: Size, config: &Config, now: u64) -> (enemy: Enemy)
        requires
            x - size.width / 2 >= i32::MIN,
        ensures
            enemy@ == EnemyView::initial(x, y, size, rocket_size, *config, now),
    {
        Enemy {
            hitbox: Hitbox::new(x - (size.width / 2) as i32, y, size),
            angle: 0,
            life: config.enemy_health,
            children: Vec::new(),
            rocket_cooldown: now,
            movement: MovementState { right: true, up: false, step: 1 },
            rocket_size,
        }
    }

    /// Whether the reload time has passed at `now`.
    pub fn reloaded(&self, now: u64, config: &Config) -> (ready: bool)
        requires
            config.wf(),
        ensures
            ready == self@.reloaded(now, *config),
    {
        let elapsed: u64 = if now >= self.rocket_cooldown {
            now - self.rocket_cooldown
        } else {
            0
        };
        elapsed >= config.cooldown_millis()
    }

    /// One frame of facing, wandering, firing and bouncing with the given
    /// rolls.
    pub fn advance(&mut self, facing: Heading, now: u64, screen: Size, config: &Config, rolls: Rolls)
        requires
            facing.wf(),
            config.wf(),
            old(self).hitbox.size.fits_in(screen),
        ensures
            final(self)@ == old(self)@.moved(facing, now, screen, *config, rolls),
    {
        self.angle = facing.angle;
        let bounds = Bounds::around(screen, self.hitbox.size);
        let (x0, y0) = bounds.restrict(self.hitbox.x as i64, self.hitbox.y as i64);
        let step: i32 = self.movement.step as i32;
        let wy: i32 = if self.movement.up {
            y0 + step
        } else {
            y0 - step
        };
        let wx: i32 = if self.movement.right {
            x0 - step
        } else {
            x0 + step
        };
        if self.reloaded(now, config) {
            self.children.push(Rocket::new(wx, wy, screen.height as i32, facing.quarter_back(), self.rocket_size));
            self.rocket_cooldown = now;
            self.movement.step = rolls.step;
        }
        if rolls.vertical % 3 == 0 {
            self.movement.up = !self.movement.up;
        }
        if rolls.horizontal % 2 == 0 {
            self.movement.right = !self.movement.right;
        }
        let (x, y) = bounds.restrict(wx as i64, wy as i64);
        self.hitbox.x = x;
        self.hitbox.y = y;
        if x == bounds.min_x || x == bounds.max_x {
            self.movement.right = !self.movement.right;
        }
        if y == bounds.min_y || y == bounds.max_y {
            self.movement.up = !self.movement.up;
        }
    }

    /// One frame of facing, wandering, firing and bouncing. The step size is
    /// drawn only in a frame in which the enemy fires; the two direction
    /// rolls are drawn in every frame.
    pub fn movement(&mut self, facing: Heading, now: u64, screen: Size, config: &Config)
        requires
            facing.wf(),
            config.wf(),
            old(self).hitbox.size.fits_in(screen),
        ensures
            exists|rolls: Rolls|
                rolls.in_range() && final(self)@ == #[trigger] old(self)@.moved(
                    facing,
                    now,
                    screen,
                    *config,
                    rolls,
                ),
            final(self).life == old(self).life,
            final(self).angle == facing.angle,
            Bounds::spec_around(screen, old(self).hitbox.size).contains(
                final(self).hitbox.x as int,
                final(self).hitbox.y as int,
            ),
            !old(self)@.reloaded(now, *config) ==> final(self).children@ == old(self).children@
                && final(self).rocket_cooldown == old(self).rocket_cooldown,
            old(self)@.reloaded(now, *config) ==> final(self).children@ == old(self).children@.push(
                old(self)@.shot(facing, screen),
            ) && final(self).rocket_cooldown == now,
    {
        let step: u16 = if self.reloaded(now, config) {
            draw(MIN_STEP, STEP_LIMIT)
        } else {
            MIN_STEP
        };
        let vertical: u16 = draw(0, ROLL_LIMIT);
        let horizontal: u16 = draw(0, ROLL_LIMIT);
        let rolls = Rolls { step, vertical, horizontal };
        self.advance(facing, now, screen, config, rolls);
    }

    /// The length in pixels at which to draw the health bar.
    pub fn health_bar(&self) -> (length: i64)
        ensures
            length == self@.health_bar(),
            0 <= length,
            self.life <= 0 ==> length == 0,
    {
        let shown: i64 = if self.life > 0 {
            self.life as i64
        } else {
            0
        };
        let width: i64 = self.hitbox.size.width as i64;
        assert(0 <= shown * width <= 0x8000_0000 * 0x1_0000) by (nonlinear_arith)
            requires
                0 <= shown <= 0x8000_0000,
                0 <= width <= 0x1_0000,
        ;
        shown * width / ENEMY_BAR_FULL
    }

    /// Moves every rocket of the enemy by one frame.
    pub fn animate(&mut self, config: &Config)
        ensures
            final(self)@ == old(self)@.animated(*config),
    {
        animate_all(&mut self.children, config);
    }

    /// Drops the enemy's expired rockets.
    pub fn children_lifetime(&mut self)
        ensures
            final(self)@ == old(self)@.pruned(),
    {
        prune(&mut self.children);
    }
}

/// The reload gates the enemy's fire. A frame in which the reload time has
/// passed adds exactly one rocket and restarts the reload at that frame's
/// time; from then on no frame adds a rocket until the reload time has passed
/// again, and the first that comes at or after it adds exactly one.
pub proof fn lemma_reload_gates_fire(
    enemy: EnemyView,
    then: u64,
    now: u64,
    facing_then: Heading,
    facing_now: Heading,
    screen: Size,
    config: Config,
    rolls_then: Rolls,
    rolls_now: Rolls,
)
    requires
        enemy.reloaded(then, config),
    ensures
        ({
            let fired = enemy.moved(facing_then, then, screen, config, rolls_then);
            let next = fired.moved(facing_now, now, screen, config, rolls_now);
            &&& fired.children == enemy.children.push(enemy.shot(facing_then, screen))
            &&& fired.rocket_cooldown == then
            &&& fired.elapsed(now) < config.spec_cooldown_millis() ==> next.children == fired.children
                && next.rocket_cooldown == then
            &&& fired.elapsed(now) >= config.spec_cooldown_millis() ==> next.children == fired.children.push(
                fired.shot(facing_now, screen),
            ) && next.rocket_cooldown == now
        }),
{
}

/// Wandering never takes the enemy outside its limits, whatever is rolled,
/// and never touches its health.
pub proof fn lemma_enemy_stays_inside(
    enemy: EnemyView,
    facing: Heading,
    now: u64,
    screen: Size,
    config: Config,
    rolls: Rolls,
)
    requires
        enemy.hitbox.size.fits_in(screen),
    ensures
        ({
            let next = enemy.moved(facing, now, screen, config, rolls);
            &&& Bounds::spec_around(screen, enemy.hitbox.size).contains(next.hitbox.x as int, next.hitbox.y as int)
            &&& next.life == enemy.life
        }),
{
}

} // verus!
