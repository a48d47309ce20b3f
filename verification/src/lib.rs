//! Simulation core of a wave-based arcade shooter.
//!
//! The library owns the per-tick entity lifecycle: spawning with bounded
//! placement retries, procedural movement patterns, cooldown-driven firing,
//! two-sided collision resolution, and the Playing / GameOver session state
//! machine. Everything here is integer fixed-point and fully verified; the
//! surrounding process (rendering, window, device input) lives outside and
//! hands the library plain values.
//!
//! Each tick runs five stages in a fixed order — spawn, movement, shooting,
//! collision resolution, session state — and every stage collects its
//! changes against the state it entered with before applying them at one
//! flush point.

pub mod collision;
pub mod config;
pub mod entities;
pub mod geom;
pub mod input;
pub mod laws;
pub mod movement;
mod rng;
pub mod registry;
pub mod shoot;
pub mod state;
pub mod spawn;

use vstd::prelude::*;
use crate::collision::{collisions_resolved, resolve_collisions, sat_add_u64};
use crate::config::Config;
use crate::entities::Player;
use crate::geom::DT_LIMIT;
use crate::input::InputState;
use crate::movement::{movement_step, movement_stepped};
use crate::registry::{AlienManager, GameState, ID_LIMIT, Registry, Score};
use crate::shoot::{shoot_step, shot_stepped};
use crate::spawn::{spawn_step, spawn_stepped, spawn_wave};
use crate::state::{restarted, state_step, state_stepped, state_transition};

verus! {

/// The whole-session invariant every tick preserves: a well-formed registry
/// whose population counter agrees with the alive flags, whose projectiles
/// all sit inside the vertical play bounds, and whose player stands inside
/// the horizontal play bounds.
pub open spec fn session_inv(cfg: Config, reg: Registry) -> bool {
    &&& reg.wf(cfg)
    &&& reg.counts_synced()
    &&& forall|j: int|
        0 <= j < reg.projectiles@.len() ==> cfg.in_vertical_bounds_spec(
            (#[trigger] reg.projectiles@[j]).pos.y as int,
        )
    &&& (reg.player is Some ==> -cfg.res.half_width <= reg.player->Some_0.pos.x
        <= cfg.res.half_width)
}

/// What one tick reports back to the caller: whether a player-hit event
/// occurred, whether wave completion fired, and how many aliens were killed.
#[derive(Clone, Copy, Debug)]
pub struct TickReport {
    pub player_hit: bool,
    pub wave_completed: bool,
    pub kills: usize,
}

/// Open a fresh session: the initial wave spawned and counted, the player
/// on its start mark, a clean score, Playing.
pub fn new_session(cfg: &Config) -> (reg: Registry)
    requires
        cfg.valid(),
    ensures
        session_inv(*cfg, reg),
        restarted(*cfg, reg),
        forall|i: int|
            0 <= i < reg.aliens@.len()
                ==> (#[trigger] reg.aliens@[i]).alive
                    && crate::spawn::in_spawn_band(*cfg, reg.aliens@[i].pos)
                    && crate::movement::pattern_in_ranges(
                        *cfg,
                        reg.aliens@[i].pos,
                        reg.aliens@[i].pattern,
                    ),
        reg.next_id <= cfg.cap as u64,
{
    let mut reg = Registry {
        aliens: Vec::new(),
        projectiles: Vec::new(),
        player: Some(Player { pos: cfg.player_start(), shoot_timer: 0 }),
        score: Score { value: 0 },
        wave: AlienManager {
            alive_aliens: 0,
            spawn_timer: cfg.spawn_interval,
            clear_latch: false,
        },
        state: GameState::Playing,
        next_id: 0,
    };
    spawn_wave(cfg, &mut reg, cfg.base_count);
    reg
}

/// One simulation tick of `dt` milliseconds. While Playing the five stages
/// run in their fixed order: spawn, movement, shooting, collision
/// resolution, session state; a player-hit event ends the session this very
/// tick. While GameOver the gameplay stages stand still and only a restart
/// request does anything.
pub fn tick(
    cfg: &Config,
    reg: &mut Registry,
    input: &InputState,
    restart_requested: bool,
    dt: u64,
) -> (report: TickReport)
    requires
        cfg.valid(),
        session_inv(*cfg, *old(reg)),
        input.wf(),
        dt <= DT_LIMIT,
        old(reg).next_id + 2 * cfg.cap <= ID_LIMIT,
    ensures
        session_inv(*cfg, *final(reg)),
        final(reg).next_id <= old(reg).next_id + 2 * cfg.cap,
        // GameOver is entered exactly on a hit and left only by a restart
        state_transition(old(reg).state, final(reg).state, report.player_hit, restart_requested),
        old(reg).state == GameState::GameOver ==> !report.player_hit && !report.wave_completed,
        // a GameOver tick without a restart request changes nothing
        old(reg).state == GameState::GameOver && !restart_requested ==> *final(reg) == *old(reg),
        // restart yields the canonical fresh session, whatever came before
        old(reg).state == GameState::GameOver && restart_requested ==> restarted(
            *cfg,
            *final(reg),
        ),
        // one point per confirmed kill, and only then
        old(reg).state == GameState::Playing ==> final(reg).score.value as int == sat_add_u64(
            old(reg).score.value as int,
            report.kills as int,
        ),
        // wave completion sets the edge latch that blocks a second firing
        report.wave_completed ==> final(reg).wave.clear_latch,
        // a Playing tick is exactly the five stages, chained in their order
        old(reg).state == GameState::Playing ==> exists|
            r1: Registry,
            r2: Registry,
            r3: Registry,
            r4: Registry,
            hits: Seq<(usize, usize)>,
        |
            {
                &&& #[trigger] spawn_stepped(*cfg, *old(reg), r1, dt)
                &&& #[trigger] movement_stepped(*cfg, r1, r2, *input, dt)
                &&& #[trigger] shot_stepped(*cfg, r2, r3, *input, dt)
                &&& #[trigger] collisions_resolved(*cfg, r3, r4, hits, report.player_hit)
                &&& state_stepped(
                    *cfg,
                    r4,
                    *final(reg),
                    report.player_hit,
                    false,
                    report.wave_completed,
                )
                &&& report.kills == hits.len()
            },
{
    match reg.state {
        GameState::Playing => {
            spawn_step(cfg, reg, dt);
            let ghost r1 = *reg;
            movement_step(cfg, reg, input, dt);
            let ghost r2 = *reg;
            shoot_step(cfg, reg, input, dt);
            let ghost r3 = *reg;
            let (hits, player_hit) = resolve_collisions(cfg, reg);
            let ghost r4 = *reg;
            let ghost hseq = hits@;
            let fired = state_step(cfg, reg, player_hit, false);
            let report = TickReport { player_hit, wave_completed: fired, kills: hits.len() };
            proof {
                assert(spawn_stepped(*cfg, *old(reg), r1, dt));
                assert(movement_stepped(*cfg, r1, r2, *input, dt));
                assert(shot_stepped(*cfg, r2, r3, *input, dt));
                assert(collisions_resolved(*cfg, r3, r4, hseq, report.player_hit));
                assert(state_stepped(
                    *cfg,
                    r4,
                    *reg,
                    report.player_hit,
                    false,
                    report.wave_completed,
                ));
                assert(report.kills == hseq.len());
                assert(exists|
                    s1: Registry,
                    s2: Registry,
                    s3: Registry,
                    s4: Registry,
                    hits2: Seq<(usize, usize)>,
                |
                    {
                        &&& #[trigger] spawn_stepped(*cfg, *old(reg), s1, dt)
                        &&& #[trigger] movement_stepped(*cfg, s1, s2, *input, dt)
                        &&& #[trigger] shot_stepped(*cfg, s2, s3, *input, dt)
                        &&& #[trigger] collisions_resolved(*cfg, s3, s4, hits2, report.player_hit)
                        &&& state_stepped(
                            *cfg,
                            s4,
                            *reg,
                            report.player_hit,
                            false,
                            report.wave_completed,
                        )
                        &&& report.kills == hits2.len()
                    });
            }
            report
        },
        GameState::GameOver => {
            let _ = state_step(cfg, reg, false, restart_requested);
            TickReport { player_hit: false, wave_completed: false, kills: 0 }
        },
    }
}

} // verus!
