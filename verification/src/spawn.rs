use vstd::prelude::*;
use crate::config::Config;
use crate::entities::{Alien, count_alive, lemma_count_alive_push};
use crate::geom::{Vec2i, within, within_radius};
use crate::movement::{draw_pattern, pattern_in_ranges};
use crate::registry::{ID_LIMIT, Registry};
use crate::rng::rand_between;

verus! {

// The spawn stage creates aliens: the initial wave, the trickle spawn on a
// timer, and the waves the state machine orders. A candidate position is
// drawn inside the spawn band and checked against a minimum spacing from
// every existing alien; the retry loop is bounded, and on exhaustion the
// last candidate is placed unchecked, so saturation never hangs a tick.

/// Where spawn positions are drawn: a horizontal band below the top edge.
pub open spec fn in_spawn_band(cfg: Config, p: Vec2i) -> bool {
    &&& -cfg.spawn_band_x <= p.x <= cfg.spawn_band_x
    &&& cfg.spawn_y_lo <= p.y <= cfg.spawn_y_hi
}

/// No existing alien stands within the spacing distance of the candidate.
pub open spec fn clear_of(cfg: Config, p: Vec2i, aliens: Seq<Alien>) -> bool {
    forall|i: int|
        0 <= i < aliens.len() ==> !within(p, (#[trigger] aliens[i]).pos, cfg.spacing as int)
}

/// Check a candidate position against every existing alien.
fn placement_clear(cfg: &Config, p: Vec2i, aliens: &Vec<Alien>) -> (b: bool)
    requires
        cfg.valid(),
        p.wf(),
        forall|i: int| 0 <= i < aliens@.len() ==> (#[trigger] aliens@[i]).wf(),
    ensures
        b == clear_of(*cfg, p, aliens@),
{
    let mut i: usize = 0;
    while i < aliens.len()
        invariant
            cfg.valid(),
            p.wf(),
            forall|k: int| 0 <= k < aliens@.len() ==> (#[trigger] aliens@[k]).wf(),
            0 <= i <= aliens@.len(),
            forall|k: int|
                0 <= k < i as int
                    ==> !within(p, (#[trigger] aliens@[k]).pos, cfg.spacing as int),
        decreases aliens@.len() - i,
    {
        if within_radius(p, aliens[i].pos, cfg.spacing) {
            return false;
        }
        i = i + 1;
    }
    true
}

/// Draw a candidate position uniformly inside the spawn band.
fn draw_position(cfg: &Config) -> (p: Vec2i)
    requires
        cfg.valid(),
    ensures
        in_spawn_band(*cfg, p),
        p.wf(),
{
    Vec2i {
        x: rand_between(-cfg.spawn_band_x, cfg.spawn_band_x),
        y: rand_between(cfg.spawn_y_lo, cfg.spawn_y_hi),
    }
}

/// Find a spawn position: draw and re-draw while a candidate sits too close
/// to an existing alien, at most `max_place_attempts` times; on exhaustion
/// the last candidate is used without the spacing constraint.
pub fn place_alien(cfg: &Config, aliens: &Vec<Alien>) -> (p: Vec2i)
    requires
        cfg.valid(),
        forall|i: int| 0 <= i < aliens@.len() ==> (#[trigger] aliens@[i]).wf(),
    ensures
        in_spawn_band(*cfg, p),
        p.wf(),
{
    let mut candidate = draw_position(cfg);
    let mut attempts: u64 = 1;
    while attempts < cfg.max_place_attempts
        invariant
            cfg.valid(),
            forall|i: int| 0 <= i < aliens@.len() ==> (#[trigger] aliens@[i]).wf(),
            in_spawn_band(*cfg, candidate),
            candidate.wf(),
            attempts <= cfg.max_place_attempts,
        decreases cfg.max_place_attempts - attempts,
    {
        if placement_clear(cfg, candidate, aliens) {
            return candidate;
        }
        candidate = draw_position(cfg);
        attempts = attempts + 1;
    }
    candidate
}

/// Build one freshly spawned alien at a position: alive, anchored there,
/// with a random movement pattern and full cooldowns.
fn make_alien(cfg: &Config, pos: Vec2i, id: u64) -> (a: Alien)
    requires
        cfg.valid(),
        pos.wf(),
    ensures
        a.wf(),
        a.alive,
        a.id == id,
        a.pos == pos,
        a.original_pos == pos,
        a.shoot_timer == cfg.alien_cooldown,
        a.switch_timer == cfg.switch_interval,
        pattern_in_ranges(*cfg, pos, a.pattern),
{
    Alien {
        id,
        pos,
        original_pos: pos,
        pattern: draw_pattern(cfg, pos),
        alive: true,
        shoot_timer: cfg.alien_cooldown,
        switch_timer: cfg.switch_interval,
    }
}

/// Spawn one alien: place it, append it, count it. Everything else in the
/// registry stays as it was.
pub fn spawn_alien(cfg: &Config, reg: &mut Registry)
    requires
        cfg.valid(),
        old(reg).wf(*cfg),
        old(reg).aliens@.len() < cfg.cap,
        old(reg).wave.alive_aliens < cfg.cap,
        old(reg).next_id < ID_LIMIT,
    ensures
        final(reg).wf(*cfg),
        final(reg).aliens@.len() == old(reg).aliens@.len() + 1,
        forall|i: int|
            0 <= i < old(reg).aliens@.len()
                ==> #[trigger] final(reg).aliens@[i] == old(reg).aliens@[i],
        final(reg).aliens@.last().alive,
        final(reg).aliens@.last().id == old(reg).next_id,
        final(reg).aliens@.last().pos == final(reg).aliens@.last().original_pos,
        in_spawn_band(*cfg, final(reg).aliens@.last().pos),
        final(reg).aliens@.last().shoot_timer == cfg.alien_cooldown,
        final(reg).aliens@.last().switch_timer == cfg.switch_interval,
        pattern_in_ranges(*cfg, final(reg).aliens@.last().pos, final(reg).aliens@.last().pattern),
        count_alive(final(reg).aliens@) == count_alive(old(reg).aliens@) + 1,
        final(reg).wave.alive_aliens == old(reg).wave.alive_aliens + 1,
        final(reg).wave.spawn_timer == old(reg).wave.spawn_timer,
        final(reg).wave.clear_latch == old(reg).wave.clear_latch,
        final(reg).next_id == old(reg).next_id + 1,
        final(reg).projectiles == old(reg).projectiles,
        final(reg).player == old(reg).player,
        final(reg).score == old(reg).score,
        final(reg).state == old(reg).state,
{
    let pos = place_alien(cfg, &reg.aliens);
    let a = make_alien(cfg, pos, reg.next_id);
    proof {
        lemma_count_alive_push(reg.aliens@, a);
    }
    reg.aliens.push(a);
    reg.next_id = reg.next_id + 1;
    reg.wave.alive_aliens = reg.wave.alive_aliens + 1;
}

/// Spawn `n` aliens in a row, bounded by the population cap.
pub fn spawn_wave(cfg: &Config, reg: &mut Registry, n: usize)
    requires
        cfg.valid(),
        old(reg).wf(*cfg),
        old(reg).aliens@.len() + n <= cfg.cap,
        old(reg).wave.alive_aliens + n <= cfg.cap,
        old(reg).next_id + n <= ID_LIMIT,
        n <= cfg.cap,
    ensures
        final(reg).wf(*cfg),
        final(reg).aliens@.len() == old(reg).aliens@.len() + n,
        forall|i: int|
            0 <= i < old(reg).aliens@.len()
                ==> #[trigger] final(reg).aliens@[i] == old(reg).aliens@[i],
        forall|i: int|
            old(reg).aliens@.len() <= i < final(reg).aliens@.len()
                ==> (#[trigger] final(reg).aliens@[i]).alive
                    && in_spawn_band(*cfg, final(reg).aliens@[i].pos)
                    && final(reg).aliens@[i].shoot_timer == cfg.alien_cooldown
                    && final(reg).aliens@[i].switch_timer == cfg.switch_interval
                    && pattern_in_ranges(
                        *cfg,
                        final(reg).aliens@[i].pos,
                        final(reg).aliens@[i].pattern,
                    ),
        count_alive(final(reg).aliens@) == count_alive(old(reg).aliens@) + n,
        final(reg).wave.alive_aliens == old(reg).wave.alive_aliens + n,
        final(reg).wave.spawn_timer == old(reg).wave.spawn_timer,
        final(reg).wave.clear_latch == old(reg).wave.clear_latch,
        final(reg).projectiles == old(reg).projectiles,
        final(reg).player == old(reg).player,
        final(reg).score == old(reg).score,
        final(reg).state == old(reg).state,
        final(reg).next_id == old(reg).next_id + n,
{
    let mut k: usize = 0;
    while k < n
        invariant
            cfg.valid(),
            reg.wf(*cfg),
            0 <= k <= n,
            n <= cfg.cap,
            reg.aliens@.len() == old(reg).aliens@.len() + k,
            old(reg).aliens@.len() + n <= cfg.cap,
            old(reg).wave.alive_aliens + n <= cfg.cap,
            forall|i: int|
                0 <= i < old(reg).aliens@.len()
                    ==> #[trigger] reg.aliens@[i] == old(reg).aliens@[i],
            forall|i: int|
                old(reg).aliens@.len() <= i < reg.aliens@.len()
                    ==> (#[trigger] reg.aliens@[i]).alive
                        && in_spawn_band(*cfg, reg.aliens@[i].pos)
                        && reg.aliens@[i].shoot_timer == cfg.alien_cooldown
                        && reg.aliens@[i].switch_timer == cfg.switch_interval
                        && pattern_in_ranges(*cfg, reg.aliens@[i].pos, reg.aliens@[i].pattern),
            count_alive(reg.aliens@) == count_alive(old(reg).aliens@) + k,
            reg.wave.alive_aliens == old(reg).wave.alive_aliens + k,
            reg.wave.spawn_timer == old(reg).wave.spawn_timer,
            reg.wave.clear_latch == old(reg).wave.clear_latch,
            reg.projectiles == old(reg).projectiles,
            reg.player == old(reg).player,
            reg.score == old(reg).score,
            reg.state == old(reg).state,
            reg.next_id == old(reg).next_id + k,
            old(reg).next_id + n <= ID_LIMIT,
        decreases n - k,
    {
        proof {
            crate::entities::lemma_count_alive_le_len(old(reg).aliens@);
        }
        spawn_alien(cfg, reg);
        k = k + 1;
    }
}

/// The spawn timer has not yet reached zero this tick.
pub open spec fn spawn_waited(reg: Registry, dt: u64) -> bool {
    reg.wave.spawn_timer > dt
}

/// The population has room for one more alien.
pub open spec fn spawn_room(cfg: Config, reg: Registry) -> bool {
    reg.wave.alive_aliens < cfg.cap && reg.aliens@.len() < cfg.cap
}

/// The spawn stage's whole effect as a relation between the registry it
/// entered with and the one it left: while the timer runs nothing changes
/// but the countdown; at zero the timer rewinds and, if there is room, one
/// fresh alien joins the field and is counted. Kept opaque; `spawn_step`
/// establishes it and the tick contract chains it.
#[verifier::opaque]
pub open spec fn spawn_stepped(cfg: Config, r0: Registry, r1: Registry, dt: u64) -> bool {
    &&& r1.wf(cfg)
    &&& (spawn_waited(r0, dt) ==> r1.wave.spawn_timer == r0.wave.spawn_timer - dt
        && r1.aliens == r0.aliens && r1.wave.alive_aliens == r0.wave.alive_aliens
        && r1.next_id == r0.next_id)
    &&& (!spawn_waited(r0, dt) ==> r1.wave.spawn_timer == cfg.spawn_interval)
    &&& (!spawn_waited(r0, dt) && !spawn_room(cfg, r0) ==> r1.aliens == r0.aliens
        && r1.wave.alive_aliens == r0.wave.alive_aliens && r1.next_id == r0.next_id)
    &&& (!spawn_waited(r0, dt) && spawn_room(cfg, r0) ==> r1.aliens@.len() == r0.aliens@.len()
        + 1 && r1.wave.alive_aliens == r0.wave.alive_aliens + 1
        && count_alive(r1.aliens@) == count_alive(r0.aliens@) + 1
        && (forall|i: int|
            0 <= i < r0.aliens@.len() ==> #[trigger] r1.aliens@[i] == r0.aliens@[i])
        && r1.aliens@.last().alive && in_spawn_band(cfg, r1.aliens@.last().pos)
        && r1.aliens@.last().shoot_timer == cfg.alien_cooldown
        && r1.aliens@.last().switch_timer == cfg.switch_interval
        && pattern_in_ranges(cfg, r1.aliens@.last().pos, r1.aliens@.last().pattern))
    &&& (spawn_waited(r0, dt) || !spawn_room(cfg, r0) ==> count_alive(r1.aliens@)
        == count_alive(r0.aliens@))
    &&& r1.wave.clear_latch == r0.wave.clear_latch
    &&& r1.projectiles == r0.projectiles
    &&& r1.player == r0.player
    &&& r1.score == r0.score
    &&& r1.state == r0.state
    &&& r1.next_id <= r0.next_id + 1
}

/// The spawn-controller stage: count the spawn timer down; when it reaches
/// zero, rewind it and, if the population is below the cap, spawn one alien.
pub fn spawn_step(cfg: &Config, reg: &mut Registry, dt: u64)
    requires
        cfg.valid(),
        old(reg).wf(*cfg),
        old(reg).next_id < ID_LIMIT,
        dt <= crate::geom::DT_LIMIT,
    ensures
        final(reg).wf(*cfg),
        spawn_waited(*old(reg), dt)
            ==> final(reg).wave.spawn_timer == old(reg).wave.spawn_timer - dt
                && final(reg).aliens == old(reg).aliens
                && final(reg).wave.alive_aliens == old(reg).wave.alive_aliens
                && final(reg).next_id == old(reg).next_id,
        !spawn_waited(*old(reg), dt) ==> final(reg).wave.spawn_timer == cfg.spawn_interval,
        !spawn_waited(*old(reg), dt) && !spawn_room(*cfg, *old(reg))
            ==> final(reg).aliens == old(reg).aliens
                && final(reg).wave.alive_aliens == old(reg).wave.alive_aliens
                && final(reg).next_id == old(reg).next_id,
        !spawn_waited(*old(reg), dt) && spawn_room(*cfg, *old(reg))
            ==> final(reg).aliens@.len() == old(reg).aliens@.len() + 1
                && final(reg).wave.alive_aliens == old(reg).wave.alive_aliens + 1
                && count_alive(final(reg).aliens@) == count_alive(old(reg).aliens@) + 1
                && (forall|i: int|
                    0 <= i < old(reg).aliens@.len()
                        ==> #[trigger] final(reg).aliens@[i] == old(reg).aliens@[i])
                && final(reg).aliens@.last().alive
                && in_spawn_band(*cfg, final(reg).aliens@.last().pos)
                && final(reg).aliens@.last().shoot_timer == cfg.alien_cooldown
                && final(reg).aliens@.last().switch_timer == cfg.switch_interval
                && pattern_in_ranges(
                    *cfg,
                    final(reg).aliens@.last().pos,
                    final(reg).aliens@.last().pattern,
                ),
        spawn_waited(*old(reg), dt) || !spawn_room(*cfg, *old(reg))
            ==> count_alive(final(reg).aliens@) == count_alive(old(reg).aliens@),
        spawn_stepped(*cfg, *old(reg), *final(reg), dt),
        final(reg).wave.clear_latch == old(reg).wave.clear_latch,
        final(reg).projectiles == old(reg).projectiles,
        final(reg).player == old(reg).player,
        final(reg).score == old(reg).score,
        final(reg).state == old(reg).state,
        final(reg).next_id <= old(reg).next_id + 1,
{
    if reg.wave.spawn_timer > dt {
        reg.wave.spawn_timer = reg.wave.spawn_timer - dt;
    } else {
        reg.wave.spawn_timer = cfg.spawn_interval;
        if reg.wave.alive_aliens < cfg.cap && reg.aliens.len() < cfg.cap {
            spawn_alien(cfg, reg);
        }
    }
    proof {
        reveal(spawn_stepped);
    }
}

} // verus!
