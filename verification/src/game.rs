//! One game from the first frame to victory or defeat.
//!
//! A frame has three parts, called in this order: the player's turn, the
//! enemy's turn, and the settling of hits. Between the first two the caller
//! works out where the enemy faces from the positions the first one left.

use vstd::prelude::*;
use crate::background::BackgroundAnimation;
use crate::combat::{hits, lemma_hits_and_misses, misses, missing, strike};
use crate::config::Config;
use crate::enemy::{Enemy, EnemyView, Rolls};
use crate::geometry::Size;
use crate::rocket::{in_flight, Heading};
use crate::ship::{Controls, Spaceship, SpaceshipView};

verus! {

/// The footprints of the images the game is drawn with.
#[derive(Clone, Copy, Debug, PartialEq, Eq, Structural)]
pub struct Sprites {
    pub ship: Size,
    pub enemy: Size,
    pub rocket: Size,
    pub background: Size,
}

/// Whether the game is still being played, and if not, how it ended.
#[derive(Clone, Copy, Debug, PartialEq, Eq, Structural)]
pub enum Outcome {
    Running,
    Victory,
    Defeat,
}

/// How a game stands with the two health counts given: won once the enemy
/// has none left, else lost once the ship has none left.
pub open spec fn spec_verdict(enemy_life: i32, ship_life: i32) -> Outcome {
    if enemy_life <= 0 {
        Outcome::Victory
    } else if ship_life <= 0 {
        Outcome::Defeat
    } else {
        Outcome::Running
    }
}

#[verifier::when_used_as_spec(spec_verdict)]
pub fn verdict(enemy_life: i32, ship_life: i32) -> (outcome: Outcome)
    ensures
        outcome == spec_verdict(enemy_life, ship_life),
{
    if enemy_life <= 0 {
        Outcome::Victory
    } else if ship_life <= 0 {
        Outcome::Defeat
    } else {
        Outcome::Running
    }
}

/// Everything one game consists of.
pub struct Game {
    pub background: BackgroundAnimation,
    pub ship: Spaceship,
    pub enemy: Enemy,
    pub outcome: Outcome,
}

/// A game with both entities as their views.
pub struct GameView {
    pub background: BackgroundAnimation,
    pub ship: SpaceshipView,
    pub enemy: EnemyView,
    pub outcome: Outcome,
}

impl View for Game {
    type V = GameView;

    open spec fn view(&self) -> GameView {
        GameView {
            background: self.background,
            ship: self.ship@,
            enemy: self.enemy@,
            outcome: self.outcome,
        }
    }
}

impl GameView {
    /// A running game on `screen` before the first frame: the ship centred
    /// on the bottom edge, the enemy centred on the top edge, nothing fired.
    pub open spec fn initial(screen: Size, sprites: Sprites, config: Config, now: u64) -> GameView {
        GameView {
            background: BackgroundAnimation::spec_new(sprites.background.height),
            ship: SpaceshipView::initial(
                (screen.width / 2) as i32,
                screen.height as i32,
                sprites.ship,
                sprites.rocket,
                config,
            ),
            enemy: EnemyView::initial((screen.width / 2) as i32, 0, sprites.enemy, sprites.rocket, config, now),
            outcome: Outcome::Running,
        }
    }

    /// The game after the player's part of a frame: the backdrop scrolls,
    /// the ship's rockets fly, the ship moves, its expired rockets go, and
    /// last it fires. An ended game stays as it is.
    pub open spec fn after_player(self, controls: Controls, pressed: bool, screen: Size, config: Config) -> GameView {
        if self.outcome is Running {
            GameView {
                background: self.background.animated(screen, config),
                ship: self.ship.animated(config).moved(controls, screen, config).pruned().fired(pressed, screen),
                ..self
            }
        } else {
            self
        }
    }

    /// The game after the enemy's part of a frame with the given rolls: its
    /// rockets fly, it moves and perhaps fires, and its expired rockets go.
    /// An ended game stays as it is.
    pub open spec fn after_enemy(self, facing: Heading, now: u64, screen: Size, config: Config, rolls: Rolls) -> GameView {
        if self.outcome is Running {
            GameView {
                enemy: self.enemy.animated(config).moved(facing, now, screen, config, rolls).pruned(),
                ..self
            }
        } else {
            self
        }
    }

    /// The game after hits are settled: each side loses one health point per
    /// rocket of the other side that overlaps it, those rockets are gone,
    /// and the outcome follows from the health left. An ended game stays as
    /// it is.
    pub open spec fn settled(self) -> GameView {
        if self.outcome is Running {
            let enemy_life = (self.enemy.life - hits(self.ship.children, self.enemy.hitbox)) as i32;
            let ship_life = (self.ship.life - hits(self.enemy.children, self.ship.hitbox)) as i32;
            GameView {
                background: self.background,
                ship: SpaceshipView {
                    children: misses(self.ship.children, self.enemy.hitbox),
                    life: ship_life,
                    ..self.ship
                },
                enemy: EnemyView {
                    children: misses(self.enemy.children, self.ship.hitbox),
                    life: enemy_life,
                    ..self.enemy
                },
                outcome: spec_verdict(enemy_life, ship_life),
            }
        } else {
            self
        }
    }

    /// Whether settling hits can be computed: while the game runs, neither
    /// health count can drop below what it can store.
    pub open spec fn can_settle(self) -> bool {
        self.outcome is Running ==> {
            &&& self.enemy.life - self.ship.children.len() >= i32::MIN
            &&& self.ship.life - self.enemy.children.len() >= i32::MIN
        }
    }
}

impl Game {
    /// A running game on `screen` before the first frame.
    pub fn new(screen: Size, sprites: Sprites, config: &Config, now: u64) -> (game: Game)
        ensures
            game@ == GameView::initial(screen, sprites, *config, now),
    {
        let middle: i32 = (screen.width / 2) as i32;
        Game {
            background: BackgroundAnimation::new(sprites.background.height),
            ship: Spaceship::new(middle, screen.height as i32, sprites.ship, sprites.rocket, config),
            enemy: Enemy::new(middle, 0, sprites.enemy, sprites.rocket, config, now),
            outcome: Outcome::Running,
        }
    }

    /// Whether settling hits can be computed.
    pub fn can_settle(&self) -> (ok: bool)
        ensures
            ok == self@.can_settle(),
    {
        if self.outcome == Outcome::Running {
            let floor: i64 = i32::MIN as i64;
            let ship_rockets: usize = self.ship.children.len();
            let enemy_rockets: usize = self.enemy.children.len();
            ship_rockets <= 0xffff_ffff && enemy_rockets <= 0xffff_ffff && self.enemy.life as i64
                - ship_rockets as i64 >= floor && self.ship.life as i64 - enemy_rockets as i64 >= floor
        } else {
            true
        }
    }

    /// The player's part of a frame.
    pub fn player_turn(&mut self, controls: Controls, pressed: bool, screen: Size, config: &Config)
        requires
            old(self).ship.hitbox.size.fits_in(screen),
        ensures
            final(self)@ == old(self)@.after_player(controls, pressed, screen, *config),
    {
        if self.outcome == Outcome::Running {
            self.background.animate(screen, config);
            self.ship.animate(config);
            self.ship.movement(controls, screen, config);
            self.ship.children_lifetime();
            self.ship.shoot(pressed, screen);
        }
    }

    /// The enemy's part of a frame with the given rolls.
    pub fn enemy_turn_with(&mut self, facing: Heading, now: u64, screen: Size, config: &Config, rolls: Rolls)
        requires
            facing.wf(),
            config.wf(),
            old(self).enemy.hitbox.size.fits_in(screen),
        ensures
            final(self)@ == old(self)@.after_enemy(facing, now, screen, *config, rolls),
    {
        if self.outcome == Outcome::Running {
            self.enemy.animate(config);
            self.enemy.advance(facing, now, screen, config, rolls);
            self.enemy.children_lifetime();
        }
    }

    /// The enemy's part of a frame, with rolls drawn as it goes.
    pub fn enemy_turn(&mut self, facing: Heading, now: u64, screen: Size, config: &Config)
        requires
            facing.wf(),
            config.wf(),
            old(self).enemy.hitbox.size.fits_in(screen),
        ensures
            exists|rolls: Rolls|
                rolls.in_range() && final(self)@ == #[trigger] old(self)@.after_enemy(
                    facing,
                    now,
                    screen,
                    *config,
                    rolls,
                ),
            final(self).outcome == old(self).outcome,
            final(self).enemy.life == old(self).enemy.life,
            final(self).ship@ == old(self).ship@,
    {
        if self.outcome == Outcome::Running {
            self.enemy.animate(config);
            let ghost before = self.enemy@;
            self.enemy.movement(facing, now, screen, config);
            let ghost rolls = choose|rolls: Rolls|
                rolls.in_range() && self.enemy@ == #[trigger] before.moved(facing, now, screen, *config, rolls);
            self.enemy.children_lifetime();
            assert(self@ == old(self)@.after_enemy(facing, now, screen, *config, rolls));
        } else {
            let ghost rolls = Rolls { step: 2, vertical: 0, horizontal: 0 };
            assert(rolls.in_range() && self@ == old(self)@.after_enemy(facing, now, screen, *config, rolls));
        }
    }

    /// Settles this frame's hits and decides whether the game goes on.
    /// Returns how the game ended if it ended in this call, so an ending is
    /// reported once; every later call returns `None` and changes nothing.
    pub fn settle(&mut self) -> (ended: Option<Outcome>)
        requires
            old(self)@.can_settle(),
        ensures
            final(self)@ == old(self)@.settled(),
            ended == (if old(self).outcome is Running && !(final(self).outcome is Running) {
                Some(final(self).outcome)
            } else {
                None
            }),
            final(self).enemy.life <= old(self).enemy.life,
            final(self).ship.life <= old(self).ship.life,
    {
        if self.outcome == Outcome::Running {
            strike(&mut self.ship.children, &self.enemy.hitbox, &mut self.enemy.life);
            strike(&mut self.enemy.children, &self.ship.hitbox, &mut self.ship.life);
            self.outcome = verdict(self.enemy.life, self.ship.life);
            if self.outcome == Outcome::Running {
                None
            } else {
                Some(self.outcome)
            }
        } else {
            None
        }
    }
}

/// Once a game has ended, no part of a frame changes it.
pub proof fn lemma_ended_game_is_frozen(
    game: GameView,
    controls: Controls,
    pressed: bool,
    facing: Heading,
    now: u64,
    screen: Size,
    config: Config,
    rolls: Rolls,
)
    requires
        !(game.outcome is Running),
    ensures
        game.after_player(controls, pressed, screen, config) == game,
        game.after_enemy(facing, now, screen, config, rolls) == game,
        game.settled() == game,
{
}

/// Health never rises. The player's and the enemy's part of a frame leave
/// both health counts as they are; settling takes exactly one point off a
/// side for each rocket of the other side that overlaps it.
pub proof fn lemma_health_only_drops_by_hits(
    game: GameView,
    controls: Controls,
    pressed: bool,
    facing: Heading,
    now: u64,
    screen: Size,
    config: Config,
    rolls: Rolls,
)
    requires
        game.can_settle(),
    ensures
        game.after_player(controls, pressed, screen, config).ship.life == game.ship.life,
        game.after_player(controls, pressed, screen, config).enemy.life == game.enemy.life,
        game.after_enemy(facing, now, screen, config, rolls).ship.life == game.ship.life,
        game.after_enemy(facing, now, screen, config, rolls).enemy.life == game.enemy.life,
        game.settled().enemy.life <= game.enemy.life,
        game.settled().ship.life <= game.ship.life,
        game.outcome is Running ==> game.settled().enemy.life == game.enemy.life - hits(
            game.ship.children,
            game.enemy.hitbox,
        ),
        game.outcome is Running ==> game.settled().ship.life == game.ship.life - hits(
            game.enemy.children,
            game.ship.hitbox,
        ),
{
    lemma_hits_and_misses(game.ship.children, game.enemy.hitbox);
    lemma_hits_and_misses(game.enemy.children, game.ship.hitbox);
}

/// A game ends only by a health count reaching zero or less: it is won
/// exactly when the enemy's has, and lost exactly when only the ship's has.
/// While it runs, both counts are positive.
pub proof fn lemma_game_ends_at_zero_health(game: GameView)
    requires
        game.outcome is Running,
        game.can_settle(),
    ensures
        game.settled().outcome is Victory <==> game.settled().enemy.life <= 0,
        game.settled().outcome is Defeat <==> game.settled().enemy.life > 0 && game.settled().ship.life <= 0,
        game.settled().outcome is Running <==> game.settled().enemy.life > 0 && game.settled().ship.life > 0,
{
    lemma_hits_and_misses(game.ship.children, game.enemy.hitbox);
    lemma_hits_and_misses(game.enemy.children, game.ship.hitbox);
}

/// A completed frame leaves no spent rocket behind. None of the rockets left
/// overlaps the side it was fired at. None of the enemy's has expired, and
/// none of the ship's has either, except possibly the one fired in this very
/// frame.
pub proof fn lemma_frame_leaves_no_spent_rockets(
    game: GameView,
    controls: Controls,
    pressed: bool,
    facing: Heading,
    now: u64,
    screen: Size,
    config: Config,
    rolls: Rolls,
)
    requires
        game.outcome is Running,
    ensures
        ({
            let played = game.after_player(controls, pressed, screen, config);
            let done = played.after_enemy(facing, now, screen, config, rolls).settled();
            let fresh = game.ship.animated(config).moved(controls, screen, config).pruned().shot(screen);
            &&& forall|i: int|
                0 <= i < done.enemy.children.len() ==> {
                    &&& !(#[trigger] done.enemy.children[i]).expired()
                    &&& !done.enemy.children[i].hitbox.overlaps(&done.ship.hitbox)
                }
            &&& forall|i: int|
                0 <= i < done.ship.children.len() ==> {
                    &&& !(#[trigger] done.ship.children[i]).hitbox.overlaps(&done.enemy.hitbox)
                    &&& !done.ship.children[i].expired() || (pressed && done.ship.children[i] == fresh)
                }
        }),
{
    broadcast use vstd::seq_lib::group_filter_ensures;

    let played = game.after_player(controls, pressed, screen, config);
    let faced = played.after_enemy(facing, now, screen, config, rolls);
    let done = faced.settled();
    let fresh = game.ship.animated(config).moved(controls, screen, config).pruned().shot(screen);
    assert forall|i: int| 0 <= i < done.enemy.children.len() implies {
        &&& !(#[trigger] done.enemy.children[i]).expired()
        &&& !done.enemy.children[i].hitbox.overlaps(&done.ship.hitbox)
    } by {
        let rocket = done.enemy.children[i];
        assert(missing(faced.ship.hitbox)(rocket));
        assert(misses(faced.enemy.children, faced.ship.hitbox).contains(rocket));
        faced.enemy.children.lemma_filter_contains_rev(missing(faced.ship.hitbox), rocket);
        let j = choose|j: int| 0 <= j < faced.enemy.children.len() && faced.enemy.children[j] == rocket;
        assert(in_flight()(faced.enemy.children[j]));
    }
    assert forall|i: int| 0 <= i < done.ship.children.len() implies {
        &&& !(#[trigger] done.ship.children[i]).hitbox.overlaps(&done.enemy.hitbox)
        &&& !done.ship.children[i].expired() || (pressed && done.ship.children[i] == fresh)
    } by {
        let rocket = done.ship.children[i];
        assert(missing(faced.enemy.hitbox)(rocket));
        assert(misses(faced.ship.children, faced.enemy.hitbox).contains(rocket));
        faced.ship.children.lemma_filter_contains_rev(missing(faced.enemy.hitbox), rocket);
        let j = choose|j: int| 0 <= j < faced.ship.children.len() && faced.ship.children[j] == rocket;
        let kept = game.ship.animated(config).moved(controls, screen, config).pruned().children;
        if j < kept.len() {
            assert(in_flight()(kept[j]));
        }
    }
}

} // verus!
