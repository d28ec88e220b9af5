use armageddon::background::BackgroundAnimation;
use armageddon::config::Config;
use armageddon::enemy::{MovementState, Rolls};
use armageddon::game::{verdict, Game, Outcome, Sprites};
use armageddon::geometry::{Hitbox, Size};
use armageddon::rocket::{Heading, Rocket};
use armageddon::ship::Controls;

const SCREEN: Size = Size { width: 800, height: 600 };
const SPRITES: Sprites = Sprites {
    ship: Size { width: 60, height: 66 },
    enemy: Size { width: 90, height: 110 },
    rocket: Size { width: 10, height: 20 },
    background: Size { width: 800, height: 1000 },
};
const IDLE: Controls = Controls { left: false, right: false, up: false, down: false };
const AWAY: Heading = Heading { angle: 90_000, sin: 1000, cos: 0 };
const STEADY: Rolls = Rolls { step: 4, vertical: 1, horizontal: 1 };

fn rocket_on(target: &Hitbox) -> Rocket {
    Rocket::new(target.x + 1, target.y + 1, 600, Heading::ahead(), SPRITES.rocket)
}

fn rocket_off(target: &Hitbox) -> Rocket {
    Rocket::new(target.x - 500, target.y + 1, 600, Heading::ahead(), SPRITES.rocket)
}

#[test]
fn verdict_goes_by_the_health_left() {
    assert_eq!(verdict(100, 3), Outcome::Running);
    assert_eq!(verdict(1, 1), Outcome::Running);
    assert_eq!(verdict(0, 3), Outcome::Victory);
    assert_eq!(verdict(-1, 3), Outcome::Victory);
    assert_eq!(verdict(100, 0), Outcome::Defeat);
    assert_eq!(verdict(100, -2), Outcome::Defeat);
    assert_eq!(verdict(0, 0), Outcome::Victory);
}

#[test]
fn game_starts_running_with_both_sides_in_place() {
    let game = Game::new(SCREEN, SPRITES, &Config::default(), 77);
    assert_eq!(game.outcome, Outcome::Running);
    assert_eq!(game.background, BackgroundAnimation { tile_height: 1000, y1: 0, y2: -1000 });
    assert_eq!(game.ship.hitbox, Hitbox { x: 370, y: 600, size: SPRITES.ship });
    assert_eq!(game.ship.life, 3);
    assert!(game.ship.children.is_empty());
    assert_eq!(game.enemy.hitbox, Hitbox { x: 355, y: 0, size: SPRITES.enemy });
    assert_eq!(game.enemy.life, 100);
    assert_eq!(game.enemy.rocket_cooldown, 77);
    assert_eq!(game.enemy.movement, MovementState { right: true, up: false, step: 1 });
    assert!(game.enemy.children.is_empty());
}

#[test]
fn player_turn_runs_its_steps_in_order() {
    let config = Config::default();
    let mut game = Game::new(SCREEN, SPRITES, &config, 0);
    game.ship.children.push(Rocket::new(5, 100, 600, Heading::ahead(), SPRITES.rocket));
    game.ship.children.push(Rocket::new(5, -15, 600, Heading::ahead(), SPRITES.rocket));
    game.player_turn(Controls { left: true, ..IDLE }, true, SCREEN, &config);
    assert_eq!(game.background, BackgroundAnimation { tile_height: 1000, y1: 1, y2: -999 });
    assert_eq!((game.ship.hitbox.x, game.ship.hitbox.y), (367, 534));
    assert_eq!(game.ship.children.len(), 2);
    assert_eq!(game.ship.children[0].hitbox, Hitbox { x: 5, y: 94, size: SPRITES.rocket });
    assert_eq!(game.ship.children[1].hitbox, Hitbox { x: 367, y: 534, size: SPRITES.rocket });
    assert_eq!(game.enemy.hitbox, Hitbox { x: 355, y: 0, size: SPRITES.enemy });
    assert_eq!(game.outcome, Outcome::Running);
}

#[test]
fn enemy_turn_runs_its_steps_in_order() {
    let config = Config::default();
    let mut game = Game::new(SCREEN, SPRITES, &config, 0);
    game.enemy.children.push(Rocket::new(5, 598, 600, Heading { angle: 180_000, sin: 0, cos: -1000 }, SPRITES.rocket));
    game.enemy_turn_with(AWAY, 3000, SCREEN, &config, STEADY);
    assert_eq!((game.enemy.hitbox.x, game.enemy.hitbox.y), (354, -1));
    assert_eq!(game.enemy.angle, 90_000);
    assert_eq!(
        game.enemy.children,
        vec![Rocket { hitbox: Hitbox { x: 354, y: -1, size: SPRITES.rocket }, heading: Heading::ahead(), lifetime: 600 }]
    );
    assert_eq!(game.ship.hitbox, Hitbox { x: 370, y: 600, size: SPRITES.ship });
}

#[test]
fn enemy_turn_draws_its_own_rolls() {
    macroquad::rand::srand(7);
    let config = Config::default();
    let mut game = Game::new(SCREEN, SPRITES, &config, 0);
    let mut steps = Vec::new();
    for frame in 1..=300u64 {
        game.enemy_turn(AWAY, frame * 1000, SCREEN, &config);
        assert_eq!(game.enemy.life, 100);
        assert_eq!(game.outcome, Outcome::Running);
        if frame % 3 == 0 {
            assert_eq!(game.enemy.rocket_cooldown, frame * 1000);
            steps.push(game.enemy.movement.step);
        }
    }
    assert!(steps.iter().all(|step| (2..5).contains(step)));
    assert!(steps.contains(&2) && steps.contains(&3) && steps.contains(&4));
}

#[test]
fn hundred_hits_bring_victory_once_at_zero() {
    let config = Config::default();
    let mut game = Game::new(SCREEN, SPRITES, &config, 0);
    assert_eq!(game.enemy.life, 100);
    let mut victories = 0;
    let mut life_at_victory = None;
    for hit in 1..=100 {
        let rocket = rocket_on(&game.enemy.hitbox);
        game.ship.children.push(rocket);
        let ended = game.settle();
        assert_eq!(game.enemy.life, 100 - hit);
        assert!(game.ship.children.is_empty());
        if ended == Some(Outcome::Victory) {
            victories += 1;
            life_at_victory = Some(game.enemy.life);
            assert_eq!(hit, 100);
        } else {
            assert_eq!(ended, None);
        }
    }
    assert_eq!(victories, 1);
    assert_eq!(life_at_victory, Some(0));
    assert_eq!(game.outcome, Outcome::Victory);
    assert_eq!(game.ship.life, 3);
    for _ in 0..5 {
        assert_eq!(game.settle(), None);
        assert_eq!(game.outcome, Outcome::Victory);
        assert_eq!(game.enemy.life, 0);
    }
}

#[test]
fn three_hits_on_the_ship_bring_defeat_once() {
    let config = Config::default();
    let mut game = Game::new(SCREEN, SPRITES, &config, 0);
    let mut reports = Vec::new();
    for _ in 0..3 {
        let rocket = rocket_on(&game.ship.hitbox);
        game.enemy.children.push(rocket);
        reports.push(game.settle());
    }
    assert_eq!(reports, vec![None, None, Some(Outcome::Defeat)]);
    assert_eq!(game.ship.life, 0);
    assert_eq!(game.enemy.life, 100);
    assert_eq!(game.settle(), None);
    assert_eq!(game.outcome, Outcome::Defeat);
}

#[test]
fn settle_counts_each_rocket_on_its_own() {
    let config = Config::default();
    let mut game = Game::new(SCREEN, SPRITES, &config, 0);
    for _ in 0..4 {
        let hit = rocket_on(&game.enemy.hitbox);
        let miss = rocket_off(&game.enemy.hitbox);
        game.ship.children.push(hit);
        game.ship.children.push(miss);
    }
    let on_ship = rocket_on(&game.ship.hitbox);
    game.enemy.children.push(on_ship);
    assert_eq!(game.settle(), None);
    assert_eq!(game.enemy.life, 96);
    assert_eq!(game.ship.life, 2);
    assert_eq!(game.ship.children.len(), 4);
    assert!(game.ship.children.iter().all(|rocket| !rocket.hitbox.overlaps(&game.enemy.hitbox)));
    assert!(game.enemy.children.is_empty());
}

#[test]
fn health_may_pass_below_zero_in_one_frame() {
    let config = Config { speed: 1, time_resolution: 1, ship_health: 3, enemy_health: 2 };
    let mut game = Game::new(SCREEN, SPRITES, &config, 0);
    for _ in 0..5 {
        let rocket = rocket_on(&game.enemy.hitbox);
        game.ship.children.push(rocket);
    }
    assert_eq!(game.settle(), Some(Outcome::Victory));
    assert_eq!(game.enemy.life, -3);
}

#[test]
fn victory_comes_before_defeat() {
    let config = Config { speed: 1, time_resolution: 1, ship_health: 1, enemy_health: 1 };
    let mut game = Game::new(SCREEN, SPRITES, &config, 0);
    let on_enemy = rocket_on(&game.enemy.hitbox);
    let on_ship = rocket_on(&game.ship.hitbox);
    game.ship.children.push(on_enemy);
    game.enemy.children.push(on_ship);
    assert_eq!(game.settle(), Some(Outcome::Victory));
    assert_eq!((game.enemy.life, game.ship.life), (0, 0));
}

#[test]
fn ended_game_is_frozen() {
    let config = Config { speed: 1, time_resolution: 1, ship_health: 3, enemy_health: 1 };
    let mut game = Game::new(SCREEN, SPRITES, &config, 0);
    let rocket = rocket_on(&game.enemy.hitbox);
    game.ship.children.push(rocket);
    assert_eq!(game.settle(), Some(Outcome::Victory));
    let flying = Rocket::new(5, 100, 600, Heading::ahead(), SPRITES.rocket);
    game.ship.children.push(flying);
    game.player_turn(Controls { left: true, up: true, ..IDLE }, true, SCREEN, &config);
    game.enemy_turn_with(AWAY, 1_000_000, SCREEN, &config, STEADY);
    game.enemy_turn(AWAY, 2_000_000, SCREEN, &config);
    assert_eq!(game.settle(), None);
    assert_eq!(game.background, BackgroundAnimation { tile_height: 1000, y1: 0, y2: -1000 });
    assert_eq!(game.ship.hitbox, Hitbox { x: 370, y: 600, size: SPRITES.ship });
    assert_eq!(game.ship.children, vec![flying]);
    assert_eq!(game.enemy.hitbox, Hitbox { x: 355, y: 0, size: SPRITES.enemy });
    assert!(game.enemy.children.is_empty());
    assert_eq!(game.enemy.rocket_cooldown, 0);
    assert_eq!((game.enemy.life, game.ship.life), (0, 3));
    assert_eq!(game.outcome, Outcome::Victory);
}

#[test]
fn played_game_is_won_once() {
    let config = Config::default();
    let mut game = Game::new(SCREEN, SPRITES, &config, 0);
    let mut reports = Vec::new();
    let mut now = 0;
    let mut frames = 0;
    while frames < 200_000 {
        frames += 1;
        now += 16;
        let chase = Controls {
            left: game.ship.hitbox.x > game.enemy.hitbox.x + 40,
            right: game.ship.hitbox.x < game.enemy.hitbox.x + 40,
            up: false,
            down: false,
        };
        let enemy_life = game.enemy.life;
        game.player_turn(chase, frames % 10 == 0, SCREEN, &config);
        game.enemy_turn_with(AWAY, now, SCREEN, &config, STEADY);
        assert_eq!(game.enemy.life, enemy_life);
        if let Some(outcome) = game.settle() {
            reports.push((outcome, game.enemy.life));
        }
        assert!(game.enemy.life <= enemy_life);
        assert_eq!(game.ship.life, 3);
        if frames > 150_000 {
            break;
        }
    }
    assert_eq!(reports.len(), 1);
    assert_eq!(reports[0].0, Outcome::Victory);
    assert!(reports[0].1 <= 0);
    assert_eq!(game.outcome, Outcome::Victory);
}

#[test]
fn settling_is_possible_while_health_can_hold_the_hits() {
    let config = Config::default();
    let mut game = Game::new(SCREEN, SPRITES, &config, 0);
    assert!(game.can_settle());
    game.enemy.life = i32::MIN;
    assert!(game.can_settle());
    let rocket = rocket_off(&game.enemy.hitbox);
    game.ship.children.push(rocket);
    assert!(!game.can_settle());
    game.enemy.life = i32::MIN + 1;
    assert!(game.can_settle());
    game.ship.life = i32::MIN;
    game.enemy.children.push(rocket);
    assert!(!game.can_settle());
    game.outcome = Outcome::Defeat;
    assert!(game.can_settle());
}

#[test]
fn frame_leaves_no_spent_rockets() {
    let config = Config::default();
    let mut game = Game::new(SCREEN, SPRITES, &config, 0);
    let mut now = 0;
    for frame in 0..3000 {
        now += 16;
        let fired = frame % 7 == 0;
        let chase = Controls {
            left: game.ship.hitbox.x > game.enemy.hitbox.x,
            right: game.ship.hitbox.x < game.enemy.hitbox.x,
            up: frame % 2 == 0,
            down: false,
        };
        game.player_turn(chase, fired, SCREEN, &config);
        let toward = Heading { angle: -90_000, sin: -1000, cos: 0 };
        game.enemy_turn_with(toward, now, SCREEN, &config, Rolls { step: 3, vertical: frame % 100, horizontal: (frame / 3) % 100 });
        game.settle();
        if game.outcome != Outcome::Running {
            break;
        }
        assert!(game.enemy.children.iter().all(|rocket| !rocket.expired()));
        assert!(game.enemy.children.iter().all(|rocket| !rocket.hitbox.overlaps(&game.ship.hitbox)));
        assert!(game.ship.children.iter().all(|rocket| !rocket.expired()));
        assert!(game.ship.children.iter().all(|rocket| !rocket.hitbox.overlaps(&game.enemy.hitbox)));
    }
    assert!(game.ship.life < 3 || game.enemy.life < 100);
}
