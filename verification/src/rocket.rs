//! Rockets: where they point, how they fly and when they are dropped.

use vstd::prelude::*;
use crate::config::Config;
use crate::geometry::{clamped, Hitbox, Size};

verus! {

/// The value that stands for one in a heading's sine and cosine.
pub const TRIG_UNIT: i32 = 1000;

/// A quarter turn, in thousandths of a degree.
pub const QUARTER_TURN: i32 = 90_000;

/// Pixels a rocket covers per frame at unit speed.
pub const ROCKET_STEP: i64 = 6;

/// A direction: the angle in thousandths of a degree together with its sine
/// and cosine in thousandths. The three are taken as given; nothing here
/// relates the angle to the other two.
#[derive(Clone, Copy, Debug, PartialEq, Eq, Structural)]
pub struct Heading {
    pub angle: i32,
    pub sin: i32,
    pub cos: i32,
}

impl Heading {
    /// The angle lies within half a turn of zero and sine and cosine within
    /// one of zero, as the arc tangent and the unit circle give them.
    pub open spec fn wf(&self) -> bool {
        &&& -2 * QUARTER_TURN <= self.angle <= 2 * QUARTER_TURN
        &&& -TRIG_UNIT <= self.sin <= TRIG_UNIT
        &&& -TRIG_UNIT <= self.cos <= TRIG_UNIT
    }

    pub fn is_wf(&self) -> (ok: bool)
        ensures
            ok == self.wf(),
    {
        -2 * QUARTER_TURN <= self.angle && self.angle <= 2 * QUARTER_TURN && -TRIG_UNIT <= self.sin && self.sin
            <= TRIG_UNIT && -TRIG_UNIT <= self.cos && self.cos <= TRIG_UNIT
    }

    /// Angle zero: straight up the screen.
    pub fn ahead() -> (heading: Heading)
        ensures
            heading == (Heading { angle: 0, sin: 0, cos: TRIG_UNIT }),
            heading.wf(),
    {
        Heading { angle: 0, sin: 0, cos: TRIG_UNIT }
    }

    /// This heading turned back by a quarter turn: the angle drops by ninety
    /// degrees, the sine becomes the negated cosine and the cosine the sine.
    pub open spec fn spec_quarter_back(&self) -> Heading {
        Heading {
            angle: (self.angle - QUARTER_TURN) as i32,
            sin: (-self.cos) as i32,
            cos: self.sin,
        }
    }

    #[verifier::when_used_as_spec(spec_quarter_back)]
    pub fn quarter_back(&self) -> (turned: Heading)
        requires
            self.wf(),
        ensures
            turned == self.spec_quarter_back(),
            turned.angle == self.angle - QUARTER_TURN,
            turned.sin == -self.cos,
    {
        Heading { angle: self.angle - QUARTER_TURN, sin: -self.cos, cos: self.sin }
    }
}

/// Pixels covered in one frame along an axis on which the heading has the
/// component `part`, in thousandths: six times the speed times the component,
/// rounded toward zero.
pub open spec fn stride(speed: int, part: int) -> int {
    let reach = ROCKET_STEP * speed * part;
    if reach >= 0 {
        reach / (TRIG_UNIT as int)
    } else {
        -((-reach) / (TRIG_UNIT as int))
    }
}

/// A coordinate held to what a pixel position can store.
pub open spec fn saturated(v: int) -> int {
    clamped(v, i32::MIN as int, i32::MAX as int)
}

fn compute_stride(speed: u16, part: i32) -> (d: i64)
    ensures
        d == stride(speed as int, part as int),
        -0x1_0000_0000_0000 <= d <= 0x1_0000_0000_0000,
{
    let factor: i64 = ROCKET_STEP * speed as i64;
    assert(-0x6_0000 * 0x8000_0000 <= factor * part <= 0x6_0000 * 0x8000_0000) by (nonlinear_arith)
        requires
            0 <= factor <= 0x6_0000,
            -0x8000_0000 <= part <= 0x8000_0000,
    ;
    let reach: i64 = factor * part as i64;
    assert(reach == ROCKET_STEP * speed * part) by (nonlinear_arith)
        requires
            reach == factor * part,
            factor == ROCKET_STEP * speed,
    ;
    if reach >= 0 {
        reach / TRIG_UNIT as i64
    } else {
        -((-reach) / TRIG_UNIT as i64)
    }
}

fn saturate(v: i64) -> (r: i32)
    ensures
        r == saturated(v as int),
{
    if v < i32::MIN as i64 {
        i32::MIN
    } else if v > i32::MAX as i64 {
        i32::MAX
    } else {
        v as i32
    }
}

/// A projectile in flight.
#[derive(Clone, Copy, Debug, PartialEq, Eq, Structural)]
pub struct Rocket {
    pub hitbox: Hitbox,
    pub heading: Heading,
    /// The y coordinate past which the rocket is dropped.
    pub lifetime: i32,
}

impl Rocket {
    /// A rocket at `(x, y)` that is dropped once it passes `display_height`.
    pub fn new(x: i32, y: i32, display_height: i32, heading: Heading, size: Size) -> (rocket: Rocket)
        ensures
            rocket == (Rocket { hitbox: Hitbox { x, y, size }, heading, lifetime: display_height }),
    {
        Rocket { hitbox: Hitbox::new(x, y, size), heading, lifetime: display_height }
    }

    /// Whether the rocket has left the field: it lies above the top edge by
    /// more than its own height, or below its travel bound.
    pub open spec fn spec_expired(&self) -> bool {
        -self.hitbox.size.height > self.hitbox.y || self.lifetime < self.hitbox.y
    }

    #[verifier::when_used_as_spec(spec_expired)]
    pub fn expired(&self) -> (gone: bool)
        ensures
            gone == self.spec_expired(),
    {
        -(self.hitbox.size.height as i32) > self.hitbox.y || self.lifetime < self.hitbox.y
    }

    /// The rocket one frame later: moved up by the cosine's stride and right
    /// by the sine's, each coordinate held at the end of the pixel range
    /// where the move would pass it.
    pub open spec fn animated(&self, config: Config) -> Rocket {
        Rocket {
            hitbox: Hitbox {
                x: saturated(self.hitbox.x + stride(config.speed as int, self.heading.sin as int)) as i32,
                y: saturated(self.hitbox.y - stride(config.speed as int, self.heading.cos as int)) as i32,
                size: self.hitbox.size,
            },
            heading: self.heading,
            lifetime: self.lifetime,
        }
    }

    /// Moves the rocket by one frame.
    pub fn animate(&mut self, config: &Config)
        ensures
            *final(self) == old(self).animated(*config),
    {
        let rise: i64 = compute_stride(config.speed, self.heading.cos);
        let drift: i64 = compute_stride(config.speed, self.heading.sin);
        self.hitbox.y = saturate(self.hitbox.y as i64 - rise);
        self.hitbox.x = saturate(self.hitbox.x as i64 + drift);
    }
}

/// The predicate that keeps the rockets still in the field.
pub open spec fn in_flight() -> spec_fn(Rocket) -> bool {
    |rocket: Rocket| !rocket.expired()
}

/// The rockets of `rockets` that have not expired, in their order.
pub open spec fn surviving(rockets: Seq<Rocket>) -> Seq<Rocket> {
    rockets.filter(in_flight())
}

/// Drops every expired rocket in one pass and keeps the others in order.
pub fn prune(rockets: &mut Vec<Rocket>)
    ensures
        final(rockets)@ == surviving(old(rockets)@),
        final(rockets)@.len() <= old(rockets)@.len(),
        forall|i: int| 0 <= i < final(rockets)@.len() ==> !(#[trigger] final(rockets)@[i]).expired(),
        forall|i: int|
            0 <= i < old(rockets)@.len() && !old(rockets)@[i].expired() ==> final(rockets)@.contains(
                #[trigger] old(rockets)@[i],
            ),
{
    let mut kept: Vec<Rocket> = Vec::new();
    let mut i: usize = 0;
    while i < rockets.len()
        invariant
            i <= rockets.len(),
            kept@ == surviving(rockets@.take(i as int)),
            *rockets == *old(rockets),
        decreases rockets.len() - i,
    {
        let rocket: Rocket = rockets[i];
        proof {
            let seen = rockets@.take(i as int);
            assert(rockets@.take(i + 1) == seen.push(rocket));
            seen.lemma_filter_push(rocket, in_flight());
        }
        if !rocket.expired() {
            kept.push(rocket);
        }
        i += 1;
    }
    proof {
        assert(rockets@.take(i as int) == rockets@);
        broadcast use vstd::seq_lib::group_filter_ensures;
        assert(surviving(rockets@).len() <= rockets@.len());
    }
    *rockets = kept;
}

/// A rocket that lies above the top edge by more than its own height is
/// gone after the next pruning pass.
pub proof fn lemma_rocket_above_top_is_pruned(rockets: Seq<Rocket>, rocket: Rocket)
    requires
        rocket.hitbox.y < -rocket.hitbox.size.height,
    ensures
        !surviving(rockets).contains(rocket),
{
    broadcast use vstd::seq_lib::group_filter_ensures;

    if surviving(rockets).contains(rocket) {
        let i = choose|i: int| 0 <= i < surviving(rockets).len() && surviving(rockets)[i] == rocket;
        assert(in_flight()(surviving(rockets)[i]));
    }
}

/// A rocket that has not expired is still there after the next pruning
/// pass.
pub proof fn lemma_rocket_in_flight_is_kept(rockets: Seq<Rocket>, i: int)
    requires
        0 <= i < rockets.len(),
        !rockets[i].expired(),
    ensures
        surviving(rockets).contains(rockets[i]),
{
    broadcast use vstd::seq_lib::group_filter_ensures;

    assert(in_flight()(rockets[i]));
}

/// Every rocket of `rockets` one frame later.
pub open spec fn all_animated(rockets: Seq<Rocket>, config: Config) -> Seq<Rocket> {
    Seq::new(rockets.len(), |i: int| rockets[i].animated(config))
}

/// Moves every rocket by one frame.
pub fn animate_all(rockets: &mut Vec<Rocket>, config: &Config)
    ensures
        final(rockets)@ == all_animated(old(rockets)@, *config),
{
    let mut i: usize = 0;
    while i < rockets.len()
        invariant
            i <= rockets.len(),
            rockets.len() == old(rockets).len(),
            forall|j: int| 0 <= j < i ==> rockets@[j] == (#[trigger] old(rockets)@[j]).animated(*config),
            forall|j: int| i <= j < rockets.len() ==> rockets@[j] == old(rockets)@[j],
        decreases rockets.len() - i,
    {
        let mut rocket: Rocket = rockets[i];
        rocket.animate(config);
        rockets.set(i, rocket);
        i += 1;
    }
}

} // verus!
