//! The player's ship: it follows the held keys, stays inside its limits and
//! fires straight ahead.

use vstd::prelude::*;
use crate::config::Config;
use crate::geometry::{Bounds, Hitbox, Size};
use crate::rocket::{all_animated, animate_all, prune, surviving, Heading, Rocket, TRIG_UNIT};

verus! {

/// Pixels the ship covers per frame along an axis at unit speed.
pub const SHIP_STEP: i64 = 3;

/// Pixels the ship's health bar is long at full health.
pub const SHIP_BAR_LENGTH: i64 = 150;

/// Which of the four direction keys are held in this frame.
#[derive(Clone, Copy, Debug, PartialEq, Eq, Structural)]
pub struct Controls {
    pub left: bool,
    pub right: bool,
    pub up: bool,
    pub down: bool,
}

impl Controls {
    /// Net horizontal push at `pace` pixels per key: `pace` for right, minus
    /// `pace` for left, zero for both or neither.
    pub open spec fn across(&self, pace: int) -> int {
        (if self.right { pace } else { 0 }) - (if self.left { pace } else { 0 })
    }

    /// Net vertical push at `pace` pixels per key: `pace` for down, minus
    /// `pace` for up, zero for both or neither.
    pub open spec fn along(&self, pace: int) -> int {
        (if self.down { pace } else { 0 }) - (if self.up { pace } else { 0 })
    }
}

/// The player's ship as the simulation holds it.
pub struct Spaceship {
    pub hitbox: Hitbox,
    pub children: Vec<Rocket>,
    pub life: i32,
    /// The footprint of the rockets it fires.
    pub rocket_size: Size,
}

/// A ship with its rockets as a sequence.
pub struct SpaceshipView {
    pub hitbox: Hitbox,
    pub children: Seq<Rocket>,
    pub life: i32,
    pub rocket_size: Size,
}

impl View for Spaceship {
    type V = SpaceshipView;

    open spec fn view(&self) -> SpaceshipView {
        SpaceshipView {
            hitbox: self.hitbox,
            children: self.children@,
            life: self.life,
            rocket_size: self.rocket_size,
        }
    }
}

impl SpaceshipView {
    /// A ship centred horizontally on `x` with its top edge at `y`, at full
    /// health and with no rockets.
    pub open spec fn initial(x: i32, y: i32, size: Size, rocket_size: Size, config: Config) -> SpaceshipView {
        SpaceshipView {
            hitbox: Hitbox { x: (x - size.width / 2) as i32, y, size },
            children: Seq::empty(),
            life: config.ship_health,
            rocket_size,
        }
    }

    /// The ship with every rocket one frame further.
    pub open spec fn animated(self, config: Config) -> SpaceshipView {
        SpaceshipView { children: all_animated(self.children, config), ..self }
    }

    /// The ship pushed by the held keys, three pixels times the speed along
    /// each axis, and then brought back inside its limits on `screen`.
    pub open spec fn moved(self, controls: Controls, screen: Size, config: Config) -> SpaceshipView {
        let (x, y) = Bounds::spec_around(screen, self.hitbox.size).spec_restrict(
            self.hitbox.x + controls.across(SHIP_STEP * config.speed),
            self.hitbox.y + controls.along(SHIP_STEP * config.speed),
        );
        SpaceshipView { hitbox: Hitbox { x: x as i32, y: y as i32, size: self.hitbox.size }, ..self }
    }

    /// The rocket the ship fires: at the ship's corner, pointing straight
    /// ahead, living until it passes the screen's height.
    pub open spec fn shot(self, screen: Size) -> Rocket {
        Rocket {
            hitbox: Hitbox { x: self.hitbox.x, y: self.hitbox.y, size: self.rocket_size },
            heading: Heading { angle: 0, sin: 0, cos: TRIG_UNIT },
            lifetime: screen.height as i32,
        }
    }

    /// The ship after the fire key: one more rocket if it was pressed in this
    /// frame, no change otherwise.
    pub open spec fn fired(self, pressed: bool, screen: Size) -> SpaceshipView {
        if pressed {
            SpaceshipView { children: self.children.push(self.shot(screen)), ..self }
        } else {
            self
        }
    }

    /// The ship without its expired rockets.
    pub open spec fn pruned(self) -> SpaceshipView {
        SpaceshipView { children: surviving(self.children), ..self }
    }

    /// The health to show: the health left, and zero once it is below zero.
    pub open spec fn shown_life(self) -> int {
        if self.life > 0 {
            self.life as int
        } else {
            0
        }
    }

    /// The length of the health bar: the full length times the share of the
    /// starting health that is left to show, rounded down.
    pub open spec fn health_bar(self, config: Config) -> int {
        self.shown_life() * SHIP_BAR_LENGTH / (config.ship_health as int)
    }
}

impl Spaceship {
    /// A ship centred horizontally on `x` with its top edge at `y`, at full
    /// health and with no rockets.
    pub fn new(x: i32, y: i32, size: Size, rocket_size: Size, config: &Config) -> (ship: Spaceship)
        requires
            x - size.width / 2 >= i32::MIN,
        ensures
            ship@ == SpaceshipView::initial(x, y, size, rocket_size, *config),
    {
        Spaceship {
            hitbox: Hitbox::new(x - (size.width / 2) as i32, y, size),
            children: Vec::new(),
            life: config.ship_health,
            rocket_size,
        }
    }

    /// Moves every rocket of the ship by one frame.
    pub fn animate(&mut self, config: &Config)
        ensures
            final(self)@ == old(self)@.animated(*config),
    {
        animate_all(&mut self.children, config);
    }

    /// Moves the ship by the held keys and keeps it inside its limits.
    pub fn movement(&mut self, controls: Controls, screen: Size, config: &Config)
        requires
            old(self).hitbox.size.fits_in(screen),
        ensures
            final(self)@ == old(self)@.moved(controls, screen, *config),
            Bounds::spec_around(screen, old(self).hitbox.size).contains(
                final(self).hitbox.x as int,
                final(self).hitbox.y as int,
            ),
            final(self).life == old(self).life,
            final(self).children@ == old(self).children@,
    {
        let pace: i64 = SHIP_STEP * config.speed as i64;
        let mut x: i64 = self.hitbox.x as i64;
        let mut y: i64 = self.hitbox.y as i64;
        if controls.left {
            x = x - pace;
        }
        if controls.right {
            x = x + pace;
        }
        if controls.up {
            y = y - pace;
        }
        if controls.down {
            y = y + pace;
        }
        let bounds = Bounds::around(screen, self.hitbox.size);
        let (x, y) = bounds.restrict(x, y);
        self.hitbox.x = x;
        self.hitbox.y = y;
    }

    /// Fires a rocket if the fire key was pressed in this frame.
    pub fn shoot(&mut self, pressed: bool, screen: Size)
        ensures
            final(self)@ == old(self)@.fired(pressed, screen),
            final(self).life == old(self).life,
    {
        if pressed {
            self.children.push(
                Rocket::new(self.hitbox.x, self.hitbox.y, screen.height as i32, Heading::ahead(), self.rocket_size),
            );
        }
    }

    /// The length in pixels at which to draw the health bar.
    pub fn health_bar(&self, config: &Config) -> (length: i64)
        requires
            config.ship_health > 0,
        ensures
            length == self@.health_bar(*config),
            0 <= length,
            self.life <= 0 ==> length == 0,
            self.life == config.ship_health ==> length == SHIP_BAR_LENGTH,
    {
        let shown: i64 = if self.life > 0 {
            self.life as i64
        } else {
            0
        };
        assert(self.life == config.ship_health ==> shown * SHIP_BAR_LENGTH / (config.ship_health as int)
            == SHIP_BAR_LENGTH) by (nonlinear_arith)
            requires
                config.ship_health > 0,
                self.life == config.ship_health ==> shown == config.ship_health,
        ;
        assert(0 <= shown * SHIP_BAR_LENGTH / (config.ship_health as int)) by (nonlinear_arith)
            requires
                config.ship_health > 0,
                shown >= 0,
        ;
        shown * SHIP_BAR_LENGTH / config.ship_health as i64
    }

    /// Drops the ship's expired rockets.
    pub fn children_lifetime(&mut self)
        ensures
            final(self)@ == old(self)@.pruned(),
    {
        prune(&mut self.children);
    }
}

/// However far outside the ship starts and whichever keys are held, moving
/// leaves it inside its limits.
pub proof fn lemma_ship_stays_inside(ship: SpaceshipView, controls: Controls, screen: Size, config: Config)
    requires
        ship.hitbox.size.fits_in(screen),
    ensures
        ({
            let next = ship.moved(controls, screen, config);
            &&& Bounds::spec_around(screen, ship.hitbox.size).contains(next.hitbox.x as int, next.hitbox.y as int)
            &&& next.life == ship.life
        }),
{
}

} // verus!
