use vstd::prelude::*;
use crate::config::{Config, WavePolicy};
use crate::entities::{Alien, Player, lemma_count_alive_all};
use crate::registry::{GameState, ID_LIMIT, Registry};
use crate::rng::rand_between;
use crate::spawn::{in_spawn_band, spawn_wave};

verus! {

// The session state machine. While Playing it watches for player-hit events
// and for the population reaching zero; a hit ends the session, a cleared
// wave fires the configured completion policy exactly once. While GameOver
// the gameplay stages stand still and only the restart watcher runs.

/// An alien revived where it first appeared: back at its original position,
/// alive, everything else as it was.
pub open spec fn revived(a: Alien) -> Alien {
    Alien { pos: a.original_pos, alive: true, ..a }
}

/// The reset-in-place completion policy: every alien returns to its original
/// position with its dead flag cleared, and the count is recomputed.
pub fn reset_in_place(cfg: &Config, reg: &mut Registry)
    requires
        cfg.valid(),
        old(reg).wf(*cfg),
    ensures
        final(reg).wf(*cfg),
        final(reg).aliens@.len() == old(reg).aliens@.len(),
        forall|i: int|
            0 <= i < old(reg).aliens@.len()
                ==> #[trigger] final(reg).aliens@[i] == revived(old(reg).aliens@[i]),
        final(reg).wave.alive_aliens == final(reg).aliens@.len(),
        final(reg).counts_synced(),
        final(reg).wave.spawn_timer == old(reg).wave.spawn_timer,
        final(reg).wave.clear_latch == old(reg).wave.clear_latch,
        final(reg).projectiles == old(reg).projectiles,
        final(reg).player == old(reg).player,
        final(reg).score == old(reg).score,
        final(reg).state == old(reg).state,
        final(reg).next_id == old(reg).next_id,
{
    let ghost aliens0 = reg.aliens@;
    let ghost projs0 = reg.projectiles;
    let ghost player0 = reg.player;
    let ghost score0 = reg.score;
    let ghost wave0 = reg.wave;
    let ghost state0 = reg.state;
    let ghost id0 = reg.next_id;
    let mut i: usize = 0;
    while i < reg.aliens.len()
        invariant
            cfg.valid(),
            reg.aliens@.len() == aliens0.len(),
            forall|k: int| 0 <= k < aliens0.len() ==> (#[trigger] aliens0[k]).wf(),
            aliens0.len() <= cfg.cap,
            0 <= i <= aliens0.len(),
            forall|k: int| i as int <= k < aliens0.len() ==> #[trigger] reg.aliens@[k] == aliens0[k],
            forall|k: int|
                0 <= k < i as int ==> #[trigger] reg.aliens@[k] == revived(aliens0[k]),
            reg.projectiles == projs0,
            reg.player == player0,
            reg.score == score0,
            reg.wave == wave0,
            reg.state == state0,
            reg.next_id == id0,
        decreases aliens0.len() - i,
    {
        let mut a = reg.aliens[i];
        a.pos = a.original_pos;
        a.alive = true;
        reg.aliens.set(i, a);
        i = i + 1;
    }
    let n = reg.aliens.len();
    reg.wave.alive_aliens = n;
    proof {
        assert forall|k: int| 0 <= k < reg.aliens@.len()
            implies (#[trigger] reg.aliens@[k]).alive by {
            assert(reg.aliens@[k] == revived(aliens0[k]));
        }
        lemma_count_alive_all(reg.aliens@);
        assert forall|k: int| 0 <= k < reg.aliens@.len()
            implies (#[trigger] reg.aliens@[k]).wf() && reg.aliens@[k].id == aliens0[k].id by {
            assert(reg.aliens@[k] == revived(aliens0[k]));
        }
        assert forall|k1: int, k2: int|
            0 <= k1 < k2 < reg.aliens@.len()
                implies (#[trigger] reg.aliens@[k1]).id != (#[trigger] reg.aliens@[k2]).id by {
            assert(reg.aliens@[k1].id == aliens0[k1].id);
            assert(reg.aliens@[k2].id == aliens0[k2].id);
        }
    }
}

/// The escalating completion policy with the bonus already drawn: the old
/// population is discarded and a fresh wave of `base_count + bonus` aliens
/// is spawned, so the new live count is exactly `base_count + bonus`.
pub fn escalating_respawn(cfg: &Config, reg: &mut Registry, bonus: usize)
    requires
        cfg.valid(),
        old(reg).wf(*cfg),
        1 <= bonus <= cfg.bonus_max,
        old(reg).next_id + cfg.cap <= ID_LIMIT,
    ensures
        final(reg).wf(*cfg),
        final(reg).aliens@.len() == cfg.base_count + bonus,
        final(reg).wave.alive_aliens == cfg.base_count + bonus,
        final(reg).counts_synced(),
        forall|i: int|
            0 <= i < final(reg).aliens@.len()
                ==> (#[trigger] final(reg).aliens@[i]).alive
                    && in_spawn_band(*cfg, final(reg).aliens@[i].pos)
                    && crate::movement::pattern_in_ranges(
                        *cfg,
                        final(reg).aliens@[i].pos,
                        final(reg).aliens@[i].pattern,
                    ),
        final(reg).wave.spawn_timer == old(reg).wave.spawn_timer,
        final(reg).wave.clear_latch == old(reg).wave.clear_latch,
        final(reg).projectiles == old(reg).projectiles,
        final(reg).player == old(reg).player,
        final(reg).score == old(reg).score,
        final(reg).state == old(reg).state,
        final(reg).next_id <= old(reg).next_id + cfg.cap,
{
    reg.aliens = Vec::new();
    reg.wave.alive_aliens = 0;
    let n = cfg.base_count + bonus;
    spawn_wave(cfg, reg, n);
}

/// Wave completion under the configured policy. With reset-in-place the dead
/// are revived where they first stood; with escalating respawn the field is
/// replaced by `base_count` plus a drawn bonus in `[1, bonus_max]`.
pub fn wave_complete(cfg: &Config, reg: &mut Registry)
    requires
        cfg.valid(),
        old(reg).wf(*cfg),
        old(reg).next_id + cfg.cap <= ID_LIMIT,
    ensures
        final(reg).wf(*cfg),
        final(reg).counts_synced(),
        cfg.wave_policy == WavePolicy::ResetInPlace
            ==> final(reg).aliens@.len() == old(reg).aliens@.len()
                && (forall|i: int|
                    0 <= i < old(reg).aliens@.len()
                        ==> #[trigger] final(reg).aliens@[i] == revived(old(reg).aliens@[i]))
                && final(reg).wave.alive_aliens == old(reg).aliens@.len(),
        cfg.wave_policy == WavePolicy::EscalatingRespawn
            ==> cfg.base_count + 1 <= final(reg).wave.alive_aliens <= cfg.base_count
                + cfg.bonus_max && final(reg).aliens@.len() == final(reg).wave.alive_aliens
                && (forall|i: int|
                    0 <= i < final(reg).aliens@.len()
                        ==> (#[trigger] final(reg).aliens@[i]).alive),
        final(reg).wave.spawn_timer == old(reg).wave.spawn_timer,
        final(reg).wave.clear_latch == old(reg).wave.clear_latch,
        final(reg).projectiles == old(reg).projectiles,
        final(reg).player == old(reg).player,
        final(reg).score == old(reg).score,
        final(reg).state == old(reg).state,
        final(reg).next_id <= old(reg).next_id + cfg.cap,
{
    match cfg.wave_policy {
        WavePolicy::ResetInPlace => {
            reset_in_place(cfg, reg);
        },
        WavePolicy::EscalatingRespawn => {
            let bonus = rand_between(1, cfg.bonus_max as i64) as usize;
            escalating_respawn(cfg, reg, bonus);
        },
    }
}

/// What a freshly restarted session looks like, whatever came before: a
/// clean score, the initial wave alive and counted, no projectiles, the
/// player back on its start mark, and the machine Playing.
pub open spec fn restarted(cfg: Config, reg: Registry) -> bool {
    &&& reg.score.value == 0
    &&& reg.aliens@.len() == cfg.base_count
    &&& reg.wave.alive_aliens == cfg.base_count
    &&& reg.counts_synced()
    &&& reg.projectiles@.len() == 0
    &&& reg.player == Some(Player { pos: cfg.player_start_spec(), shoot_timer: 0u64 })
    &&& reg.state == GameState::Playing
    &&& !reg.wave.clear_latch
    &&& reg.wave.spawn_timer == cfg.spawn_interval
}

/// Full session restart: despawn everything, zero the score, respawn the
/// initial wave, reset the player, and return to Playing.
pub fn restart(cfg: &Config, reg: &mut Registry)
    requires
        cfg.valid(),
        old(reg).wf(*cfg),
        old(reg).next_id + cfg.cap <= ID_LIMIT,
    ensures
        final(reg).wf(*cfg),
        restarted(*cfg, *final(reg)),
        forall|i: int|
            0 <= i < final(reg).aliens@.len()
                ==> (#[trigger] final(reg).aliens@[i]).alive
                    && in_spawn_band(*cfg, final(reg).aliens@[i].pos)
                    && crate::movement::pattern_in_ranges(
                        *cfg,
                        final(reg).aliens@[i].pos,
                        final(reg).aliens@[i].pattern,
                    ),
        final(reg).next_id <= old(reg).next_id + cfg.cap,
{
    reg.score.value = 0;
    reg.projectiles = Vec::new();
    reg.aliens = Vec::new();
    reg.wave.alive_aliens = 0;
    reg.wave.spawn_timer = cfg.spawn_interval;
    reg.wave.clear_latch = false;
    reg.player = Some(Player { pos: cfg.player_start(), shoot_timer: 0 });
    reg.state = GameState::Playing;
    spawn_wave(cfg, reg, cfg.base_count);
}

/// The transition the session state makes in one tick: GameOver is entered
/// exactly on a player-hit event while Playing, and left only by a restart.
pub open spec fn state_transition(
    s0: GameState,
    s1: GameState,
    player_hit: bool,
    restart_requested: bool,
) -> bool {
    s1 == GameState::GameOver <==> ((s0 == GameState::GameOver && !restart_requested) || (s0
        == GameState::Playing && player_hit))
}

/// Wave completion fires this tick: Playing, no hit, a zero population, and
/// the edge latch not yet set.
pub open spec fn completion_fires(reg: Registry, player_hit: bool) -> bool {
    &&& reg.state == GameState::Playing
    &&& !player_hit
    &&& reg.wave.alive_aliens == 0
    &&& !reg.wave.clear_latch
}

/// The state stage's whole effect as a relation between the registry it
/// entered with and the one it left, over the events of the tick and
/// whether completion fired. Kept opaque; `state_step` establishes it and
/// the tick contract chains it.
#[verifier::opaque]
pub open spec fn state_stepped(
    cfg: Config,
    r0: Registry,
    r1: Registry,
    player_hit: bool,
    restart_requested: bool,
    fired: bool,
) -> bool {
    &&& r1.wf(cfg)
    &&& state_transition(r0.state, r1.state, player_hit, restart_requested)
    &&& fired == completion_fires(r0, player_hit)
    &&& (fired ==> r1.wave.clear_latch)
    &&& (r0.state == GameState::Playing && !player_hit && !fired
        ==> r1.wave.clear_latch == (r0.wave.alive_aliens == 0 && r0.wave.clear_latch))
    &&& (r0.state == GameState::Playing && player_hit ==> r1.aliens == r0.aliens
        && r1.projectiles == r0.projectiles && r1.player == r0.player && r1.score == r0.score
        && r1.wave == r0.wave && r1.next_id == r0.next_id && r1.state == GameState::GameOver)
    &&& (r0.state == GameState::Playing && !player_hit && !fired ==> r1.aliens == r0.aliens
        && r1.projectiles == r0.projectiles && r1.player == r0.player && r1.score == r0.score
        && r1.wave.alive_aliens == r0.wave.alive_aliens
        && r1.wave.spawn_timer == r0.wave.spawn_timer && r1.next_id == r0.next_id
        && r1.state == GameState::Playing)
    &&& (fired ==> r1.counts_synced() && (cfg.wave_policy == WavePolicy::ResetInPlace
        ==> r1.aliens@.len() == r0.aliens@.len() && (forall|i: int|
        0 <= i < r0.aliens@.len() ==> #[trigger] r1.aliens@[i] == revived(r0.aliens@[i]))
        && r1.wave.alive_aliens == r0.aliens@.len()) && (cfg.wave_policy
        == WavePolicy::EscalatingRespawn ==> cfg.base_count + 1 <= r1.wave.alive_aliens
        <= cfg.base_count + cfg.bonus_max && r1.aliens@.len() == r1.wave.alive_aliens)
        && r1.projectiles == r0.projectiles && r1.player == r0.player && r1.score == r0.score
        && r1.state == GameState::Playing)
    &&& (r0.state == GameState::GameOver && !restart_requested ==> r1 == r0)
    &&& (r0.state == GameState::GameOver && restart_requested ==> restarted(cfg, r1))
    &&& r1.next_id <= r0.next_id + cfg.cap
}

/// The state-machine stage. Returns whether wave completion fired.
pub fn state_step(
    cfg: &Config,
    reg: &mut Registry,
    player_hit: bool,
    restart_requested: bool,
) -> (fired: bool)
    requires
        cfg.valid(),
        old(reg).wf(*cfg),
        old(reg).next_id + cfg.cap <= ID_LIMIT,
    ensures
        final(reg).wf(*cfg),
        state_transition(old(reg).state, final(reg).state, player_hit, restart_requested),
        fired == completion_fires(*old(reg), player_hit),
        fired ==> final(reg).wave.clear_latch,
        // while Playing with aliens alive, the latch is rearmed
        old(reg).state == GameState::Playing && !player_hit && !fired
            ==> final(reg).wave.clear_latch == (old(reg).wave.alive_aliens == 0
                && old(reg).wave.clear_latch),
        // a hit freezes everything but the state
        old(reg).state == GameState::Playing && player_hit
            ==> final(reg).aliens == old(reg).aliens
                && final(reg).projectiles == old(reg).projectiles
                && final(reg).player == old(reg).player
                && final(reg).score == old(reg).score
                && final(reg).wave == old(reg).wave
                && final(reg).next_id == old(reg).next_id
                && final(reg).state == GameState::GameOver,
        // an uneventful Playing tick only rearms the latch
        old(reg).state == GameState::Playing && !player_hit && !fired
            ==> final(reg).aliens == old(reg).aliens
                && final(reg).projectiles == old(reg).projectiles
                && final(reg).player == old(reg).player
                && final(reg).score == old(reg).score
                && final(reg).wave.alive_aliens == old(reg).wave.alive_aliens
                && final(reg).wave.spawn_timer == old(reg).wave.spawn_timer
                && final(reg).next_id == old(reg).next_id
                && final(reg).state == GameState::Playing,
        // completion fired: the policy's outcome, with nothing else touched
        fired ==> final(reg).counts_synced()
            && (cfg.wave_policy == WavePolicy::ResetInPlace
                ==> final(reg).aliens@.len() == old(reg).aliens@.len()
                    && (forall|i: int|
                        0 <= i < old(reg).aliens@.len()
                            ==> #[trigger] final(reg).aliens@[i] == revived(
                                old(reg).aliens@[i],
                            ))
                    && final(reg).wave.alive_aliens == old(reg).aliens@.len())
            && (cfg.wave_policy == WavePolicy::EscalatingRespawn
                ==> cfg.base_count + 1 <= final(reg).wave.alive_aliens <= cfg.base_count
                    + cfg.bonus_max
                    && final(reg).aliens@.len() == final(reg).wave.alive_aliens)
            && final(reg).projectiles == old(reg).projectiles
            && final(reg).player == old(reg).player
            && final(reg).score == old(reg).score
            && final(reg).state == GameState::Playing,
        // GameOver without a restart request is frozen solid
        old(reg).state == GameState::GameOver && !restart_requested ==> *final(reg) == *old(reg),
        // restart from GameOver rebuilds the session
        old(reg).state == GameState::GameOver && restart_requested
            ==> restarted(*cfg, *final(reg)),
        final(reg).next_id <= old(reg).next_id + cfg.cap,
        state_stepped(*cfg, *old(reg), *final(reg), player_hit, restart_requested, fired),
{
    proof {
        reveal(state_stepped);
    }
    match reg.state {
        GameState::Playing => {
            if player_hit {
                reg.state = GameState::GameOver;
                false
            } else {
                if reg.wave.alive_aliens == 0 && !reg.wave.clear_latch {
                    wave_complete(cfg, reg);
                    reg.wave.clear_latch = true;
                    true
                } else {
                    if reg.wave.alive_aliens > 0 {
                        reg.wave.clear_latch = false;
                    }
                    false
                }
            }
        },
        GameState::GameOver => {
            if restart_requested {
                restart(cfg, reg);
            }
            false
        },
    }
}

} // verus!
