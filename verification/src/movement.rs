use vstd::prelude::*;
use crate::config::{BoundaryPolicy, Config};
use crate::entities::{Alien, MovementPattern, Player, Projectile, pattern_wf};
use crate::geom::{
    Vec2i, COORD_LIMIT, DT_LIMIT, VEL_LIMIT, WAVE_PERIOD, clamp_i64, clamp_spec, dist_sq,
    dist_sq_exec, isqrt64, lemma_scaled_bound, move_coord, scale_by_dt, scaled, scaled_exec,
    step_of, wave, wave_shifted, wave_spec,
};
use crate::input::InputState;
use crate::rng::rand_between;

verus! {

// The movement stage advances every alive alien by its pattern, applies the
// configured boundary policy, counts down each alien's pattern-switch timer
// (re-rolling the pattern on expiry), moves the player from the input axis,
// and moves every projectile by its vertical speed. Nothing is created or
// removed here.

/// Smallest and largest oscillation amplitude or orbit radius a re-rolled
/// pattern draws, in coordinate units.
pub const AMP_MIN: i64 = 10_000;

pub const AMP_MAX: i64 = 80_000;

/// Oscillation and orbit rates drawn on a re-roll, in phase units per second
/// (one full cycle is 4000 phase units).
pub const FREQ_MIN: i64 = 500;

pub const FREQ_MAX: i64 = 4_000;

/// A freshly drawn pattern's parameters lie in the configured ranges:
/// Linear velocities within the jitter, oscillation amplitudes and rates
/// within the draw bounds, anchors at the alien's own position, and the
/// pursuit speed exactly the configured one.
pub open spec fn pattern_in_ranges(cfg: Config, pos: Vec2i, p: MovementPattern) -> bool {
    match p {
        MovementPattern::Linear { vel } =>
            -cfg.vel_jitter <= vel.x <= cfg.vel_jitter
            && -cfg.vel_jitter <= vel.y <= cfg.vel_jitter,
        MovementPattern::Zigzag { base_x, amplitude, freq, phase } =>
            base_x == pos.x
            && AMP_MIN <= amplitude <= AMP_MAX
            && FREQ_MIN <= freq as int <= FREQ_MAX
            && phase < WAVE_PERIOD,
        MovementPattern::Circle { center, radius, angular, angle } =>
            center == pos
            && AMP_MIN <= radius <= AMP_MAX
            && FREQ_MIN <= angular as int <= FREQ_MAX
            && angle < WAVE_PERIOD,
        MovementPattern::Seek { speed } => speed == cfg.alien_speed,
    }
}

/// Draw a fresh movement pattern, uniformly over the variants, with fresh
/// random parameters; the anchor for Zigzag and Circle is the alien's
/// current position.
pub fn draw_pattern(cfg: &Config, pos: Vec2i) -> (p: MovementPattern)
    requires
        cfg.valid(),
        pos.wf(),
    ensures
        pattern_wf(p),
        pattern_in_ranges(*cfg, pos, p),
{
    let kind = rand_between(0, 3);
    if kind == 0 {
        MovementPattern::Linear {
            vel: Vec2i {
                x: rand_between(-cfg.vel_jitter, cfg.vel_jitter),
                y: rand_between(-cfg.vel_jitter, cfg.vel_jitter),
            },
        }
    } else if kind == 1 {
        MovementPattern::Zigzag {
            base_x: pos.x,
            amplitude: rand_between(AMP_MIN, AMP_MAX),
            freq: rand_between(FREQ_MIN, FREQ_MAX) as u64,
            phase: rand_between(0, 3_999) as u64,
        }
    } else if kind == 2 {
        MovementPattern::Circle {
            center: pos,
            radius: rand_between(AMP_MIN, AMP_MAX),
            angular: rand_between(FREQ_MIN, FREQ_MAX) as u64,
            angle: rand_between(0, 3_999) as u64,
        }
    } else {
        MovementPattern::Seek { speed: cfg.alien_speed }
    }
}

/// One pattern step: where the alien stands after `dt` milliseconds, exactly,
/// for each variant. Kept opaque; the movement functions establish it and
/// nothing needs to reopen it outside this module.
#[verifier::opaque]
pub open spec fn moved_by_pattern(
    cfg: Config,
    a0: Alien,
    a1: Alien,
    player_pos: Option<Vec2i>,
    dt: u64,
) -> bool {
    match a0.pattern {
        MovementPattern::Linear { vel } => {
            &&& a1.pattern == a0.pattern
            &&& a1.pos.x as int == clamp_spec(
                a0.pos.x + step_of(vel.x as int, dt as int),
                -COORD_LIMIT as int,
                COORD_LIMIT as int,
            )
            &&& a1.pos.y as int == clamp_spec(
                a0.pos.y + step_of(vel.y as int, dt as int),
                -COORD_LIMIT as int,
                COORD_LIMIT as int,
            )
        },
        MovementPattern::Zigzag { base_x, amplitude, freq, phase } => {
            let ph2 = (phase + (freq * dt) / 1000) as int % (WAVE_PERIOD as int);
            &&& a1.pattern == (MovementPattern::Zigzag {
                base_x,
                amplitude,
                freq,
                phase: ph2 as u64,
            })
            &&& a1.pos.x as int == clamp_spec(
                base_x + scaled(amplitude as int, wave_spec(ph2), 1000),
                -COORD_LIMIT as int,
                COORD_LIMIT as int,
            )
            &&& a1.pos.y as int == clamp_spec(
                a0.pos.y - step_of(cfg.descent_speed as int, dt as int),
                -COORD_LIMIT as int,
                COORD_LIMIT as int,
            )
        },
        MovementPattern::Circle { center, radius, angular, angle } => {
            let cy2 = clamp_spec(
                center.y - step_of(cfg.descent_speed as int, dt as int),
                -COORD_LIMIT as int,
                COORD_LIMIT as int,
            );
            let ang2 = (angle + (angular * dt) / 1000) as int % (WAVE_PERIOD as int);
            &&& a1.pattern == (MovementPattern::Circle {
                center: Vec2i { x: center.x, y: cy2 as i64 },
                radius,
                angular,
                angle: ang2 as u64,
            })
            &&& a1.pos.x as int == clamp_spec(
                center.x + scaled(radius as int, wave_spec((ang2 + 1000) % (WAVE_PERIOD as int)), 1000),
                -COORD_LIMIT as int,
                COORD_LIMIT as int,
            )
            &&& a1.pos.y as int == clamp_spec(
                cy2 + scaled(radius as int, wave_spec(ang2), 1000),
                -COORD_LIMIT as int,
                COORD_LIMIT as int,
            )
        },
        MovementPattern::Seek { speed } => {
            &&& a1.pattern == a0.pattern
            &&& match player_pos {
                None => a1.pos == a0.pos,
                Some(t) => {
                    if dist_sq(a0.pos, t) == 0 {
                        a1.pos == a0.pos
                    } else {
                        exists|d: int|
                            {
                                &&& 1 <= d
                                &&& #[trigger] (d * d) <= dist_sq(a0.pos, t)
                                &&& (d + 1) * (d + 1) > dist_sq(a0.pos, t)
                                &&& a1.pos.x as int == clamp_spec(
                                    a0.pos.x + step_of(
                                        scaled(t.x - a0.pos.x, speed as int, d),
                                        dt as int,
                                    ),
                                    -COORD_LIMIT as int,
                                    COORD_LIMIT as int,
                                )
                                &&& a1.pos.y as int == clamp_spec(
                                    a0.pos.y + step_of(
                                        scaled(t.y - a0.pos.y, speed as int, d),
                                        dt as int,
                                    ),
                                    -COORD_LIMIT as int,
                                    COORD_LIMIT as int,
                                )
                            }
                    }
                },
            }
        },
    }
}

/// Pursuit velocity: the direction from `from` to `to`, normalized by the
/// integer distance, at the given speed. Zero when the points coincide.
fn seek_step(from: Vec2i, to: Vec2i, speed: i64, dt: u64) -> (delta: (i64, i64))
    requires
        from.wf(),
        to.wf(),
        0 <= speed <= VEL_LIMIT,
        dt <= DT_LIMIT,
    ensures
        dist_sq(from, to) == 0 ==> delta.0 == 0 && delta.1 == 0,
        dist_sq(from, to) != 0 ==> exists|d: int|
            {
                &&& 1 <= d
                &&& #[trigger] (d * d) <= dist_sq(from, to)
                &&& (d + 1) * (d + 1) > dist_sq(from, to)
                &&& delta.0 as int == step_of(scaled(to.x - from.x, speed as int, d), dt as int)
                &&& delta.1 as int == step_of(scaled(to.y - from.y, speed as int, d), dt as int)
            },
        -crate::geom::STEP_LIMIT <= delta.0 <= crate::geom::STEP_LIMIT,
        -crate::geom::STEP_LIMIT <= delta.1 <= crate::geom::STEP_LIMIT,
{
    let dsq: i64 = dist_sq_exec(from, to);
    if dsq == 0 {
        (0, 0)
    } else {
        let d: u64 = isqrt64(dsq as u64);
        proof {
            assert(d >= 1) by (nonlinear_arith)
                requires
                    ((d as int) + 1) * ((d as int) + 1) > dsq as int,
                    dsq as int >= 1,
            ;
        }
        let dx: i64 = to.x - from.x;
        let dy: i64 = to.y - from.y;
        let vx: i64 = scaled_exec(dx, speed, d as i64);
        let vy: i64 = scaled_exec(dy, speed, d as i64);
        proof {
            let di = d as int;
            assert(di * di <= dsq as int);
            assert((di + 1) * (di + 1) > dsq as int);
            assert((dx as int) * (dx as int) <= dsq as int
                && (dy as int) * (dy as int) <= dsq as int) by (nonlinear_arith)
                requires
                    dsq as int == (from.x - to.x) * (from.x - to.x) + (from.y - to.y) * (from.y
                        - to.y),
                    dx as int == to.x - from.x,
                    dy as int == to.y - from.y,
            ;
            lemma_seek_component_bound(dx as int, speed as int, di, dsq as int);
            lemma_seek_component_bound(dy as int, speed as int, di, dsq as int);
        }
        let rx = scale_by_dt(vx, dt);
        let ry = scale_by_dt(vy, dt);
        proof {
            let di = d as int;
            assert(1 <= di && di * di <= dist_sq(from, to) && (di + 1) * (di + 1) > dist_sq(
                from,
                to,
            ) && rx as int == step_of(scaled(to.x - from.x, speed as int, di), dt as int)
                && ry as int == step_of(scaled(to.y - from.y, speed as int, di), dt as int));
        }
        (rx, ry)
    }
}

/// A normalized pursuit component never exceeds the speed: the numerator is
/// bounded by the distance the divisor carries.
proof fn lemma_seek_component_bound(dx: int, speed: int, d: int, dsq: int)
    requires
        1 <= d,
        0 <= speed,
        dx * dx <= dsq,
        (d + 1) * (d + 1) > dsq,
    ensures
        -speed <= scaled(dx, speed, d) <= speed,
{
    assert(-(d + 1) < dx < d + 1) by (nonlinear_arith)
        requires dx * dx <= dsq, (d + 1) * (d + 1) > dsq, 1 <= d;
    lemma_scaled_bound(dx, speed, d, d, speed);
    assert((d * speed) / d == speed) by (nonlinear_arith)
        requires 1 <= d;
}

/// What the boundary policy does to an alien standing at its new position:
/// nothing while it is inside; under KillOnExit an alien that left the play
/// area dies in place; under Bounce one that crossed a horizontal edge is
/// pulled back to the edge, its row shifts down by the spacing step, and the
/// pattern's horizontal component is inverted.
#[verifier::opaque]
pub open spec fn boundary_applied(cfg: Config, a0: Alien, a1: Alien) -> bool {
    match cfg.boundary {
        BoundaryPolicy::KillOnExit => {
            if cfg.in_bounds_spec(a0.pos) {
                a1 == a0
            } else {
                a1 == crate::collision::killed(a0)
            }
        },
        BoundaryPolicy::Bounce => {
            if -cfg.res.half_width <= a0.pos.x <= cfg.res.half_width {
                a1 == a0
            } else {
                &&& a1.pos.x as int == clamp_spec(
                    a0.pos.x as int,
                    -cfg.res.half_width as int,
                    cfg.res.half_width as int,
                )
                &&& a1.pos.y as int == clamp_spec(
                    a0.pos.y - cfg.spacing,
                    -COORD_LIMIT as int,
                    COORD_LIMIT as int,
                )
                &&& a1.pattern == flip_horizontal(a0.pattern)
                &&& a1.id == a0.id
                &&& a1.original_pos == a0.original_pos
                &&& a1.alive == a0.alive
                &&& a1.shoot_timer == a0.shoot_timer
                &&& a1.switch_timer == a0.switch_timer
            }
        },
    }
}

/// Invert a pattern's horizontal component, for the Bounce policy.
pub open spec fn flip_horizontal(p: MovementPattern) -> MovementPattern {
    match p {
        MovementPattern::Linear { vel } => MovementPattern::Linear {
            vel: Vec2i { x: (-vel.x) as i64, y: vel.y },
        },
        MovementPattern::Zigzag { base_x, amplitude, freq, phase } => MovementPattern::Zigzag {
            base_x,
            amplitude: (-amplitude) as i64,
            freq,
            phase,
        },
        MovementPattern::Circle { center, radius, angular, angle } => MovementPattern::Circle {
            center,
            radius: (-radius) as i64,
            angular,
            angle,
        },
        MovementPattern::Seek { speed } => MovementPattern::Seek { speed },
    }
}

/// Advance an alive alien one tick along its current pattern.
fn step_pattern(cfg: &Config, a: &mut Alien, player_pos: Option<Vec2i>, dt: u64)
    requires
        cfg.valid(),
        old(a).wf(),
        old(a).alive,
        dt <= DT_LIMIT,
        player_pos is Some ==> player_pos->Some_0.wf(),
    ensures
        moved_by_pattern(*cfg, *old(a), *final(a), player_pos, dt),
        final(a).wf(),
        final(a).id == old(a).id,
        final(a).original_pos == old(a).original_pos,
        final(a).shoot_timer == old(a).shoot_timer,
        final(a).switch_timer == old(a).switch_timer,
        final(a).alive == old(a).alive,
{
    proof {
        reveal(moved_by_pattern);
    }
    match a.pattern {
        MovementPattern::Linear { vel } => {
            let sx = scale_by_dt(vel.x, dt);
            let sy = scale_by_dt(vel.y, dt);
            a.pos.x = move_coord(a.pos.x, sx);
            a.pos.y = move_coord(a.pos.y, sy);
        },
        MovementPattern::Zigzag { base_x, amplitude, freq, phase } => {
            proof {
                assert(freq * dt <= 1_000_000_000) by (nonlinear_arith)
                    requires freq <= 1_000_000u64, dt <= 1_000u64;
            }
            let ph2: u64 = (phase + (freq * dt) / 1000) % WAVE_PERIOD;
            let w = wave(ph2);
            let off = scaled_exec(amplitude, w, 1000);
            proof {
                lemma_scaled_bound(
                    amplitude as int,
                    w as int,
                    1000,
                    crate::entities::OSC_LIMIT as int,
                    1000,
                );
            }
            let sy = scale_by_dt(cfg.descent_speed, dt);
            a.pos.x = clamp_i64(base_x + off, -COORD_LIMIT, COORD_LIMIT);
            a.pos.y = move_coord(a.pos.y, -sy);
            a.pattern = MovementPattern::Zigzag { base_x, amplitude, freq, phase: ph2 };
        },
        MovementPattern::Circle { center, radius, angular, angle } => {
            let sy = scale_by_dt(cfg.descent_speed, dt);
            let cy2 = move_coord(center.y, -sy);
            proof {
                assert(angular * dt <= 1_000_000_000) by (nonlinear_arith)
                    requires angular <= 1_000_000u64, dt <= 1_000u64;
            }
            let ang2: u64 = (angle + (angular * dt) / 1000) % WAVE_PERIOD;
            let wx = wave_shifted(ang2);
            let wy = wave(ang2);
            let offx = scaled_exec(radius, wx, 1000);
            let offy = scaled_exec(radius, wy, 1000);
            proof {
                lemma_scaled_bound(
                    radius as int,
                    wx as int,
                    1000,
                    crate::entities::OSC_LIMIT as int,
                    1000,
                );
                lemma_scaled_bound(
                    radius as int,
                    wy as int,
                    1000,
                    crate::entities::OSC_LIMIT as int,
                    1000,
                );
            }
            a.pos.x = clamp_i64(center.x + offx, -COORD_LIMIT, COORD_LIMIT);
            a.pos.y = clamp_i64(cy2 + offy, -COORD_LIMIT, COORD_LIMIT);
            a.pattern = MovementPattern::Circle {
                center: Vec2i { x: center.x, y: cy2 },
                radius,
                angular,
                angle: ang2,
            };
        },
        MovementPattern::Seek { speed } => {
            match player_pos {
                Some(t) => {
                    let ghost p0 = a.pos;
                    let (sx, sy) = seek_step(a.pos, t, speed, dt);
                    a.pos.x = move_coord(a.pos.x, sx);
                    a.pos.y = move_coord(a.pos.y, sy);
                    proof {
                        if dist_sq(p0, t) == 0 {
                            assert(sx == 0 && sy == 0);
                            assert(a.pos.x == p0.x && a.pos.y == p0.y);
                            assert(a.pos == p0);
                        } else {
                            let d = choose|d: int|
                                1 <= d && #[trigger] (d * d) <= dist_sq(p0, t) && (d + 1) * (d
                                    + 1) > dist_sq(p0, t) && sx as int == step_of(
                                    scaled(t.x - p0.x, speed as int, d),
                                    dt as int,
                                ) && sy as int == step_of(
                                    scaled(t.y - p0.y, speed as int, d),
                                    dt as int,
                                );
                            assert(a.pos.x as int == clamp_spec(
                                p0.x + step_of(scaled(t.x - p0.x, speed as int, d), dt as int),
                                -COORD_LIMIT as int,
                                COORD_LIMIT as int,
                            ));
                        }
                    }
                },
                None => {},
            }
        },
    }
}

/// Apply the configured boundary policy to an alien's fresh position.
fn apply_boundary(cfg: &Config, a: &mut Alien)
    requires
        cfg.valid(),
        old(a).wf(),
    ensures
        boundary_applied(*cfg, *old(a), *final(a)),
        final(a).wf(),
        final(a).id == old(a).id,
        final(a).original_pos == old(a).original_pos,
        final(a).shoot_timer == old(a).shoot_timer,
        final(a).switch_timer == old(a).switch_timer,
        final(a).alive ==> old(a).alive,
{
    proof {
        reveal(boundary_applied);
    }
    match cfg.boundary {
        BoundaryPolicy::KillOnExit => {
            if !cfg.in_bounds(a.pos) {
                a.alive = false;
            }
        },
        BoundaryPolicy::Bounce => {
            if a.pos.x < -cfg.res.half_width || a.pos.x > cfg.res.half_width {
                a.pos.x = clamp_i64(a.pos.x, -cfg.res.half_width, cfg.res.half_width);
                a.pos.y = clamp_i64(a.pos.y - cfg.spacing, -COORD_LIMIT, COORD_LIMIT);
                let flipped = match a.pattern {
                    MovementPattern::Linear { vel } => MovementPattern::Linear {
                        vel: Vec2i { x: -vel.x, y: vel.y },
                    },
                    MovementPattern::Zigzag { base_x, amplitude, freq, phase } =>
                        MovementPattern::Zigzag { base_x, amplitude: -amplitude, freq, phase },
                    MovementPattern::Circle { center, radius, angular, angle } =>
                        MovementPattern::Circle { center, radius: -radius, angular, angle },
                    MovementPattern::Seek { speed } => MovementPattern::Seek { speed },
                };
                a.pattern = flipped;
            }
        },
    }
}

/// Count the pattern-switch timer down; on expiry, re-roll the pattern with
/// fresh random parameters and rewind the timer. The in-flight position is
/// never touched.
fn step_switch(cfg: &Config, a: &mut Alien, dt: u64)
    requires
        cfg.valid(),
        old(a).wf(),
        dt <= DT_LIMIT,
    ensures
        final(a).wf(),
        final(a).pos == old(a).pos,
        final(a).id == old(a).id,
        final(a).original_pos == old(a).original_pos,
        final(a).shoot_timer == old(a).shoot_timer,
        final(a).alive == old(a).alive,
        old(a).switch_timer > dt ==> final(a).switch_timer == old(a).switch_timer - dt
            && final(a).pattern == old(a).pattern,
        old(a).switch_timer <= dt ==> final(a).switch_timer == cfg.switch_interval
            && pattern_wf(final(a).pattern)
            && pattern_in_ranges(*cfg, old(a).pos, final(a).pattern),
{
    if a.switch_timer > dt {
        a.switch_timer = a.switch_timer - dt;
    } else {
        a.pattern = draw_pattern(cfg, a.pos);
        a.switch_timer = cfg.switch_interval;
    }
}

/// One movement-stage step for a single alien: dead aliens are left alone;
/// an alive one moves by its pattern, meets the boundary policy, and counts
/// its switch timer down, re-rolling the pattern on expiry.
#[verifier::opaque]
pub open spec fn alien_moved(
    cfg: Config,
    a0: Alien,
    a1: Alien,
    player_pos: Option<Vec2i>,
    dt: u64,
) -> bool {
    if !a0.alive {
        a1 == a0
    } else {
        exists|m1: Alien, m2: Alien|
            {
                &&& #[trigger] moved_by_pattern(cfg, a0, m1, player_pos, dt)
                &&& #[trigger] boundary_applied(cfg, m1, m2)
                &&& a1.pos == m2.pos
                &&& a1.id == m2.id
                &&& a1.original_pos == m2.original_pos
                &&& a1.shoot_timer == m2.shoot_timer
                &&& a1.alive == m2.alive
                &&& (m2.switch_timer > dt ==> a1.switch_timer == m2.switch_timer - dt
                    && a1.pattern == m2.pattern)
                &&& (m2.switch_timer <= dt ==> a1.switch_timer == cfg.switch_interval
                    && pattern_wf(a1.pattern)
                    && pattern_in_ranges(cfg, m2.pos, a1.pattern))
            }
    }
}

pub fn move_alien(cfg: &Config, a: &mut Alien, player_pos: Option<Vec2i>, dt: u64)
    requires
        cfg.valid(),
        old(a).wf(),
        dt <= DT_LIMIT,
        player_pos is Some ==> player_pos->Some_0.wf(),
    ensures
        alien_moved(*cfg, *old(a), *final(a), player_pos, dt),
        final(a).wf(),
        final(a).id == old(a).id,
        final(a).original_pos == old(a).original_pos,
        final(a).shoot_timer == old(a).shoot_timer,
        final(a).alive ==> old(a).alive,
        !old(a).alive ==> *final(a) == *old(a),
{
    if !a.alive {
        proof {
            reveal(alien_moved);
        }
        return;
    }
    step_pattern(cfg, a, player_pos, dt);
    let ghost m1 = *a;
    apply_boundary(cfg, a);
    let ghost m2 = *a;
    step_switch(cfg, a, dt);
    proof {
        reveal(alien_moved);
        assert(moved_by_pattern(*cfg, *old(a), m1, player_pos, dt)
            && boundary_applied(*cfg, m1, m2));
    }
}

/// How the player moves in one tick: along the sign of the input axis at the
/// configured speed, clamped to the horizontal play bounds; the cooldown and
/// the row stay untouched here.
pub open spec fn axis_sign(h: int) -> int {
    if h > 0 {
        1
    } else if h < 0 {
        -1
    } else {
        0
    }
}

pub open spec fn player_moved(cfg: Config, p0: Player, p1: Player, input: InputState, dt: u64) -> bool {
    &&& p1.shoot_timer == p0.shoot_timer
    &&& p1.pos.y == p0.pos.y
    &&& p1.pos.x as int == clamp_spec(
        p0.pos.x + step_of(axis_sign(input.horizontal_movement as int) * cfg.player_speed, dt as int),
        -cfg.res.half_width as int,
        cfg.res.half_width as int,
    )
}

pub fn move_player(cfg: &Config, pl: &mut Player, input: &InputState, dt: u64)
    requires
        cfg.valid(),
        old(pl).wf(),
        input.wf(),
        dt <= DT_LIMIT,
    ensures
        player_moved(*cfg, *old(pl), *final(pl), *input, dt),
        final(pl).wf(),
{
    let dir: i64 = if input.horizontal_movement > 0 {
        1
    } else if input.horizontal_movement < 0 {
        -1
    } else {
        0
    };
    let step = scale_by_dt(dir * cfg.player_speed, dt);
    pl.pos.x = clamp_i64(pl.pos.x + step, -cfg.res.half_width, cfg.res.half_width);
}

/// How one projectile moves in one tick: straight along its vertical speed.
pub open spec fn projectile_moved(q0: Projectile, q1: Projectile, dt: u64) -> bool {
    &&& q1.owner == q0.owner
    &&& q1.speed == q0.speed
    &&& q1.pos.x == q0.pos.x
    &&& q1.pos.y as int == clamp_spec(
        q0.pos.y + step_of(q0.speed as int, dt as int),
        -COORD_LIMIT as int,
        COORD_LIMIT as int,
    )
}

pub fn move_projectiles(projectiles: &mut Vec<Projectile>, dt: u64)
    requires
        forall|j: int|
            0 <= j < old(projectiles)@.len() ==> (#[trigger] old(projectiles)@[j]).wf(),
        dt <= DT_LIMIT,
    ensures
        final(projectiles)@.len() == old(projectiles)@.len(),
        forall|j: int|
            0 <= j < old(projectiles)@.len()
                ==> projectile_moved(
                    old(projectiles)@[j],
                    #[trigger] final(projectiles)@[j],
                    dt,
                ) && final(projectiles)@[j].wf(),
{
    let ghost orig = projectiles@;
    let mut j: usize = 0;
    while j < projectiles.len()
        invariant
            projectiles@.len() == orig.len(),
            forall|q: int| 0 <= q < orig.len() ==> (#[trigger] orig[q]).wf(),
            0 <= j <= orig.len(),
            forall|q: int|
                0 <= q < j as int
                    ==> projectile_moved(orig[q], #[trigger] projectiles@[q], dt)
                        && projectiles@[q].wf(),
            forall|q: int| j as int <= q < orig.len() ==> #[trigger] projectiles@[q] == orig[q],
            dt <= DT_LIMIT,
        decreases orig.len() - j,
    {
        let mut q = projectiles[j];
        let step = scale_by_dt(q.speed, dt);
        q.pos.y = move_coord(q.pos.y, step);
        projectiles.set(j, q);
        j = j + 1;
    }
}

/// The movement stage's whole effect as a relation between the registry it
/// entered with and the one it left: the player slid along the input axis
/// inside the horizontal bounds, every alive alien advanced by its pattern
/// and met the boundary policy, every projectile flew on, and nothing else
/// moved. Kept opaque; `movement_step` establishes it and the tick contract
/// chains it.
#[verifier::opaque]
pub open spec fn movement_stepped(
    cfg: Config,
    r0: crate::registry::Registry,
    r1: crate::registry::Registry,
    input: InputState,
    dt: u64,
) -> bool {
    &&& r1.wf(cfg)
    &&& r1.aliens@.len() == r0.aliens@.len()
    &&& forall|i: int|
        0 <= i < r0.aliens@.len() ==> alien_moved(
            cfg,
            r0.aliens@[i],
            #[trigger] r1.aliens@[i],
            player_pos_of(r0.player),
            dt,
        )
    &&& forall|i: int|
        0 <= i < r0.aliens@.len() ==> (#[trigger] r1.aliens@[i]).id == r0.aliens@[i].id
            && r1.aliens@[i].original_pos == r0.aliens@[i].original_pos
            && r1.aliens@[i].shoot_timer == r0.aliens@[i].shoot_timer
            && (r1.aliens@[i].alive ==> r0.aliens@[i].alive)
            && (!r0.aliens@[i].alive ==> r1.aliens@[i] == r0.aliens@[i])
    &&& r1.projectiles@.len() == r0.projectiles@.len()
    &&& forall|j: int|
        0 <= j < r0.projectiles@.len() ==> projectile_moved(
            r0.projectiles@[j],
            #[trigger] r1.projectiles@[j],
            dt,
        )
    &&& (r0.player is None ==> r1.player is None)
    &&& (r0.player is Some ==> r1.player is Some && player_moved(
        cfg,
        r0.player->Some_0,
        r1.player->Some_0,
        input,
        dt,
    ))
    &&& r1.score == r0.score
    &&& r1.wave == r0.wave
    &&& r1.state == r0.state
    &&& r1.next_id == r0.next_id
}

/// The movement stage over the whole registry: the player slides along the
/// input axis inside the horizontal bounds, every alive alien advances by its
/// pattern and meets the boundary policy, and every projectile flies on.
/// Dead aliens, the score, the wave bookkeeping, the session state and the
/// id counter are untouched; nothing is created or removed.
pub fn movement_step(
    cfg: &Config,
    reg: &mut crate::registry::Registry,
    input: &InputState,
    dt: u64,
)
    requires
        cfg.valid(),
        old(reg).wf(*cfg),
        input.wf(),
        dt <= DT_LIMIT,
    ensures
        final(reg).wf(*cfg),
        final(reg).aliens@.len() == old(reg).aliens@.len(),
        forall|i: int|
            0 <= i < old(reg).aliens@.len()
                ==> alien_moved(
                    *cfg,
                    old(reg).aliens@[i],
                    #[trigger] final(reg).aliens@[i],
                    player_pos_of(old(reg).player),
                    dt,
                ),
        forall|i: int|
            0 <= i < old(reg).aliens@.len()
                ==> (#[trigger] final(reg).aliens@[i]).id == old(reg).aliens@[i].id
                    && final(reg).aliens@[i].original_pos == old(reg).aliens@[i].original_pos
                    && final(reg).aliens@[i].shoot_timer == old(reg).aliens@[i].shoot_timer
                    && (final(reg).aliens@[i].alive ==> old(reg).aliens@[i].alive)
                    && (!old(reg).aliens@[i].alive
                        ==> final(reg).aliens@[i] == old(reg).aliens@[i]),
        final(reg).projectiles@.len() == old(reg).projectiles@.len(),
        forall|j: int|
            0 <= j < old(reg).projectiles@.len()
                ==> projectile_moved(
                    old(reg).projectiles@[j],
                    #[trigger] final(reg).projectiles@[j],
                    dt,
                ),
        old(reg).player is None ==> final(reg).player is None,
        old(reg).player is Some ==> final(reg).player is Some && player_moved(
            *cfg,
            old(reg).player->Some_0,
            final(reg).player->Some_0,
            *input,
            dt,
        ),
        final(reg).score == old(reg).score,
        final(reg).wave == old(reg).wave,
        final(reg).state == old(reg).state,
        final(reg).next_id == old(reg).next_id,
        movement_stepped(*cfg, *old(reg), *final(reg), *input, dt),
{
    let target: Option<Vec2i> = match &reg.player {
        Some(pl) => Some(pl.pos),
        None => None,
    };

    match reg.player {
        Some(mut pl) => {
            move_player(cfg, &mut pl, input, dt);
            reg.player = Some(pl);
        },
        None => {},
    }

    let ghost aliens0 = reg.aliens@;
    let ghost projs0 = reg.projectiles@;
    let ghost player0 = reg.player;
    let ghost score0 = reg.score;
    let ghost wave0 = reg.wave;
    let ghost state0 = reg.state;
    let ghost id0 = reg.next_id;
    let mut i: usize = 0;
    while i < reg.aliens.len()
        invariant
            cfg.valid(),
            dt <= DT_LIMIT,
            target is Some ==> target->Some_0.wf(),
            reg.projectiles@ == projs0,
            reg.player == player0,
            reg.score == score0,
            reg.wave == wave0,
            reg.state == state0,
            reg.next_id == id0,
            forall|q: int| 0 <= q < projs0.len() ==> (#[trigger] projs0[q]).wf(),
            player0 is Some ==> player0->Some_0.wf(),
            reg.aliens@.len() == aliens0.len(),
            forall|k: int| 0 <= k < aliens0.len() ==> (#[trigger] aliens0[k]).wf(),
            0 <= i <= aliens0.len(),
            forall|k: int| i as int <= k < aliens0.len() ==> #[trigger] reg.aliens@[k] == aliens0[k],
            forall|k: int|
                0 <= k < i as int
                    ==> alien_moved(*cfg, aliens0[k], #[trigger] reg.aliens@[k], target, dt),
            forall|k: int|
                0 <= k < i as int
                    ==> (#[trigger] reg.aliens@[k]).wf()
                        && reg.aliens@[k].id == aliens0[k].id
                        && reg.aliens@[k].original_pos == aliens0[k].original_pos
                        && reg.aliens@[k].shoot_timer == aliens0[k].shoot_timer
                        && (reg.aliens@[k].alive ==> aliens0[k].alive)
                        && (!aliens0[k].alive ==> reg.aliens@[k] == aliens0[k]),
        decreases aliens0.len() - i,
    {
        let mut a = reg.aliens[i];
        move_alien(cfg, &mut a, target, dt);
        reg.aliens.set(i, a);
        i = i + 1;
    }

    move_projectiles(&mut reg.projectiles, dt);

    proof {
        reveal(movement_stepped);
        assert forall|k1: int, k2: int|
            0 <= k1 < k2 < reg.aliens@.len()
                implies (#[trigger] reg.aliens@[k1]).id != (#[trigger] reg.aliens@[k2]).id by {
            assert(reg.aliens@[k1].id == aliens0[k1].id);
            assert(reg.aliens@[k2].id == aliens0[k2].id);
        }
    }
}

/// The position the Seek pattern chases: the player's, when one is present.
pub open spec fn player_pos_of(player: Option<Player>) -> Option<Vec2i> {
    match player {
        Some(pl) => Some(pl.pos),
        None => None,
    }
}

} // verus!
