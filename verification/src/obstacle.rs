//! The obstacle entity: a one-column wall with a passable gap. The gap's
//! vertical centre comes from a pseudo-random generator seeded with the
//! score at spawn time, so an obstacle's shape is reproducible for a given
//! score; the gap's half-height shrinks as the score grows, down to a floor
//! that keeps the gap passable.

use vstd::prelude::*;
use crate::player::Player;

verus! {

/// Smallest vertical centre the gap can have.
pub const GAP_MIN: i32 = 10;

/// Exclusive upper bound on the gap's vertical centre.
pub const GAP_MAX: i32 = 40;

/// The gap's half-height at score zero.
pub const START_GAP_HALF_HEIGHT: i32 = 10;

/// Floor under the gap's half-height: the gap stays passable at any score.
pub const MIN_GAP_HALF_HEIGHT: i32 = 2;

/// The value a generator seeded with `seed` draws from `min..max`.
pub uninterp spec fn range_for_seed(seed: i32, min: i32, max: i32) -> i32;

/// Relies on bracket_lib's RandomNumberGenerator: `seeded` builds a
/// generator whose sequence depends on the seed alone, and `range(min, max)`
/// returns a value at least `min` and strictly below `max`.
#[verifier::external_body]
fn seeded_range(seed: i32, min: i32, max: i32) -> (r: i32)
    requires
        min < max,
    ensures
        r == range_for_seed(seed, min, max),
        min <= r < max,
{
    let mut rng = bracket_lib::random::RandomNumberGenerator::seeded(seed as u64);
    rng.range(min, max)
}

/// The gap centre the score-seeded generator yields: a draw from the screen
/// band `GAP_MIN..GAP_MAX`.
pub open spec fn gap_for_seed(seed: i32) -> i32 {
    range_for_seed(seed, GAP_MIN, GAP_MAX)
}

/// The gap's half-height for a given score: shrinks by one cell per point,
/// never below the floor.
pub open spec fn size_for_score(score: i32) -> i32 {
    if START_GAP_HALF_HEIGHT - score < MIN_GAP_HALF_HEIGHT {
        MIN_GAP_HALF_HEIGHT
    } else {
        (START_GAP_HALF_HEIGHT - score) as i32
    }
}

pub struct Obstacle {
    /// Horizontal position of the wall column.
    pub x: i32,
    /// Vertical centre of the passable gap.
    pub gap_y: i32,
    /// Half-height of the passable gap.
    pub size: i32,
}

/// The obstacle a spawn at position `x` with a given score produces.
pub open spec fn fresh_obstacle(x: i32, score: i32) -> Obstacle {
    Obstacle { x, gap_y: gap_for_seed(score), size: size_for_score(score) }
}

impl Obstacle {
    /// The shapes a spawn can produce: gap centre within the screen band the
    /// generator draws from, half-height between its floor and its start.
    pub open spec fn wf(self) -> bool {
        &&& GAP_MIN <= self.gap_y < GAP_MAX
        &&& MIN_GAP_HALF_HEIGHT <= self.size <= START_GAP_HALF_HEIGHT
    }

    /// Spawns the obstacle for a given score: the gap centre is drawn from
    /// the generator seeded with the score, the half-height shrinks as the
    /// score grows.
    pub fn new(x: i32, score: i32) -> (o: Obstacle)
        requires
            score >= 0,
        ensures
            o == fresh_obstacle(x, score),
            o.wf(),
    {
        let size: i32 = if START_GAP_HALF_HEIGHT - score < MIN_GAP_HALF_HEIGHT {
            MIN_GAP_HALF_HEIGHT
        } else {
            START_GAP_HALF_HEIGHT - score
        };
        Obstacle { x, gap_y: seeded_range(score, GAP_MIN, GAP_MAX), size }
    }

    /// Collision predicate: the player is in the wall's one-column
    /// horizontal window and vertically outside the gap
    /// `[gap_y - size, gap_y + size]`.
    pub fn is_hitting(&self, player: &Player) -> (hit: bool)
        requires
            self.wf(),
        ensures
            hit == hit_spec(*self, *player),
    {
        let in_window = player.x == self.x;
        let above_gap = player.y < self.gap_y - self.size;
        let below_gap = player.y > self.gap_y + self.size;
        in_window && (above_gap || below_gap)
    }
}

/// The player collides with the obstacle: same column, and vertically
/// outside the passable gap.
pub open spec fn hit_spec(o: Obstacle, p: Player) -> bool {
    &&& p.x == o.x
    &&& (p.y < o.gap_y - o.size || p.y > o.gap_y + o.size)
}

} // verus!
