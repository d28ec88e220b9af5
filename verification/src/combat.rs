//! Rockets against a target: which ones hit, and what a hit costs.

use vstd::prelude::*;
use crate::geometry::Hitbox;
use crate::rocket::Rocket;

verus! {

/// The predicate that holds of the rockets overlapping `target`.
pub open spec fn striking(target: Hitbox) -> spec_fn(Rocket) -> bool {
    |rocket: Rocket| rocket.hitbox.overlaps(&target)
}

/// The predicate that holds of the rockets clear of `target`.
pub open spec fn missing(target: Hitbox) -> spec_fn(Rocket) -> bool {
    |rocket: Rocket| !rocket.hitbox.overlaps(&target)
}

/// How many of `rockets` overlap `target`.
pub open spec fn hits(rockets: Seq<Rocket>, target: Hitbox) -> nat {
    rockets.filter(striking(target)).len()
}

/// The rockets of `rockets` that do not overlap `target`, in their order.
pub open spec fn misses(rockets: Seq<Rocket>, target: Hitbox) -> Seq<Rocket> {
    rockets.filter(missing(target))
}

/// Every rocket either hits or misses.
pub proof fn lemma_hits_and_misses(rockets: Seq<Rocket>, target: Hitbox)
    ensures
        hits(rockets, target) + misses(rockets, target).len() == rockets.len(),
    decreases rockets.len(),
{
    reveal(Seq::filter);
    if rockets.len() > 0 {
        lemma_hits_and_misses(rockets.drop_last(), target);
    }
}

/// Takes one health point off `life` for every rocket that overlaps
/// `target` and removes exactly those rockets; each rocket is judged on its
/// own, so several hits in one pass all count.
pub fn strike(rockets: &mut Vec<Rocket>, target: &Hitbox, life: &mut i32)
    requires
        *old(life) - old(rockets)@.len() >= i32::MIN,
    ensures
        final(rockets)@ == misses(old(rockets)@, *target),
        *final(life) == *old(life) - hits(old(rockets)@, *target),
        *final(life) <= *old(life),
        final(rockets)@.len() + hits(old(rockets)@, *target) == old(rockets)@.len(),
{
    let mut kept: Vec<Rocket> = Vec::new();
    let mut i: usize = 0;
    while i < rockets.len()
        invariant
            i <= rockets.len(),
            *rockets == *old(rockets),
            kept@ == misses(rockets@.take(i as int), *target),
            *life == *old(life) - hits(rockets@.take(i as int), *target),
            hits(rockets@.take(i as int), *target) + kept@.len() == i,
            *old(life) - rockets@.len() >= i32::MIN,
        decreases rockets.len() - i,
    {
        let rocket: Rocket = rockets[i];
        proof {
            let seen = rockets@.take(i as int);
            assert(rockets@.take(i + 1) == seen.push(rocket));
            seen.lemma_filter_push(rocket, missing(*target));
            seen.lemma_filter_push(rocket, striking(*target));
        }
        if rocket.hitbox.overlaps(target) {
            *life = *life - 1;
        } else {
            kept.push(rocket);
        }
        i += 1;
    }
    proof {
        assert(rockets@.take(i as int) == rockets@);
    }
    *rockets = kept;
}

} // verus!
