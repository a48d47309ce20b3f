use vstd::prelude::*;
use crate::geom::{Vec2i, RADIUS_LIMIT, VEL_LIMIT};
use crate::entities::OSC_LIMIT;

verus! {

/// Play-area extents, in coordinate units, measured from the centered origin.
/// `pixel_ratio` is the sprite scale in milli-units; the logic only uses it
/// to place the player's start row above the bottom edge.
#[derive(Clone, Copy, Debug)]
pub struct Resolution {
    pub half_width: i64,
    pub half_height: i64,
    pub pixel_ratio: i64,
}

impl Resolution {
    pub open spec fn wf(self) -> bool {
        0 < self.half_width <= OSC_LIMIT
        && 0 < self.half_height <= OSC_LIMIT
        && 0 < self.pixel_ratio <= 1_000_000
    }
}

/// What happens when an alien crosses a play-area edge.
#[derive(Clone, Copy, PartialEq, Eq, Structural, Debug)]
pub enum BoundaryPolicy {
    /// Invert the pattern's horizontal component and shift the row downward.
    Bounce,
    /// Mark the alien dead; the collision stage reclaims it.
    KillOnExit,
}

/// What a cleared wave is replaced with.
#[derive(Clone, Copy, PartialEq, Eq, Structural, Debug)]
pub enum WavePolicy {
    /// Revive every alien at its original spawn position.
    ResetInPlace,
    /// Discard the remnants and spawn `base_count` plus a drawn bonus.
    EscalatingRespawn,
}

/// Every tunable of the simulation, fixed for a session. All distances are
/// coordinate units (one pixel is 1000), speeds are units per second, and
/// times are milliseconds.
#[derive(Clone, Copy, Debug)]
pub struct Config {
    pub res: Resolution,
    /// A projectile closer than this to a target hits it.
    pub hit_radius: i64,
    /// An alien closer than this to the player ends the session.
    pub contact_radius: i64,
    /// Minimum separation a spawn placement tries to keep from other aliens.
    pub spacing: i64,
    pub player_speed: i64,
    /// Player shots travel upward at this speed.
    pub bullet_speed: i64,
    /// Pursuit speed of the Seek pattern.
    pub alien_speed: i64,
    /// Alien shots travel downward: this is negative.
    pub alien_projectile_speed: i64,
    /// Downward drift of Zigzag rows and Circle centers.
    pub descent_speed: i64,
    pub player_cooldown: u64,
    pub alien_cooldown: u64,
    /// Per-tick percent chance that a ready alien actually fires.
    pub shoot_chance_pct: u64,
    /// How long an alien holds one movement pattern.
    pub switch_interval: u64,
    /// How long the spawn controller waits between trickle spawns.
    pub spawn_interval: u64,
    /// Size of the initial wave, and the base of an escalating respawn.
    pub base_count: usize,
    /// An escalating respawn adds a bonus drawn from `[1, bonus_max]`.
    pub bonus_max: u64,
    /// Population cap the spawn controller enforces.
    pub cap: usize,
    /// Placement retries before falling back to an unchecked position.
    pub max_place_attempts: u64,
    /// Spawn abscissae are drawn from `[-spawn_band_x, spawn_band_x]`.
    pub spawn_band_x: i64,
    /// Spawn ordinates are drawn from `[spawn_y_lo, spawn_y_hi]`.
    pub spawn_y_lo: i64,
    pub spawn_y_hi: i64,
    /// Linear-pattern velocity components are drawn from `[-vel_jitter, vel_jitter]`.
    pub vel_jitter: i64,
    pub boundary: BoundaryPolicy,
    pub wave_policy: WavePolicy,
}

impl Config {
    pub open spec fn valid(self) -> bool {
        self.res.wf()
        && 0 < self.hit_radius <= RADIUS_LIMIT
        && 0 < self.contact_radius <= RADIUS_LIMIT
        && 0 <= self.spacing <= RADIUS_LIMIT
        && 0 < self.player_speed <= VEL_LIMIT
        && 0 < self.bullet_speed <= VEL_LIMIT
        && 0 < self.alien_speed <= VEL_LIMIT
        && -VEL_LIMIT <= self.alien_projectile_speed < 0
        && 0 <= self.descent_speed <= VEL_LIMIT
        && self.shoot_chance_pct <= 100
        && 1 <= self.switch_interval
        && 1 <= self.spawn_interval
        && 1 <= self.base_count
        && 1 <= self.bonus_max <= 1_000
        && self.base_count + self.bonus_max <= self.cap
        && self.cap <= 10_000
        && 1 <= self.max_place_attempts <= 1_000
        && 0 <= self.spawn_band_x <= self.res.half_width
        && -self.res.half_height <= self.spawn_y_lo <= self.spawn_y_hi <= self.res.half_height
        && 0 <= self.vel_jitter <= VEL_LIMIT
    }

    /// The player's start position: centered, one sprite row above the bottom.
    pub open spec fn player_start_spec(self) -> Vec2i {
        Vec2i { x: 0, y: (-self.res.half_height + 5 * self.pixel_offset()) as i64 }
    }

    pub open spec fn pixel_offset(self) -> int {
        self.res.pixel_ratio as int
    }

    pub fn player_start(&self) -> (p: Vec2i)
        requires
            self.valid(),
        ensures
            p == self.player_start_spec(),
            p.wf(),
    {
        Vec2i { x: 0, y: -self.res.half_height + 5 * self.res.pixel_ratio }
    }

    /// Is a point inside the play area?
    pub open spec fn in_bounds_spec(self, p: Vec2i) -> bool {
        -self.res.half_width <= p.x <= self.res.half_width
        && -self.res.half_height <= p.y <= self.res.half_height
    }

    /// Is a vertical coordinate inside the play area's vertical extent?
    pub open spec fn in_vertical_bounds_spec(self, y: int) -> bool {
        -self.res.half_height <= y <= self.res.half_height
    }

    pub fn in_bounds(&self, p: Vec2i) -> (b: bool)
        requires
            self.valid(),
        ensures
            b == self.in_bounds_spec(p),
    {
        -self.res.half_width <= p.x && p.x <= self.res.half_width
            && -self.res.half_height <= p.y && p.y <= self.res.half_height
    }

    pub fn in_vertical_bounds(&self, y: i64) -> (b: bool)
        requires
            self.valid(),
        ensures
            b == self.in_vertical_bounds_spec(y as int),
    {
        -self.res.half_height <= y && y <= self.res.half_height
    }
}

} // verus!
