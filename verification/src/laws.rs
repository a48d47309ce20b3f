use vstd::prelude::*;
use crate::collision::greedy_hits_ok;
use crate::config::Config;
use crate::entities::Alien;
use crate::entities::Projectile;
use crate::registry::{GameState, Registry};
use crate::state::{completion_fires, restarted, state_transition};

verus! {

// The session-level guarantees that span several stages, stated once and
// proved from the stage contracts. The per-stage guarantees live on the
// stages themselves: the collision stage's contract pins the population
// counter to the alive flags and flushes every projectile that left the
// vertical bounds within the same tick, and `session_inv` carries both
// across ticks.

/// No projectile participates in more than one kill per tick: every pair in
/// the kill list the collision stage returns consumes a distinct projectile,
/// so one projectile accounts for at most one dead alien.
pub proof fn lemma_one_kill_per_projectile(
    cfg: Config,
    aliens: Seq<Alien>,
    projs: Seq<Projectile>,
    hits: Seq<(usize, usize)>,
)
    requires
        greedy_hits_ok(cfg, aliens, projs, hits),
    ensures
        forall|k1: int, k2: int|
            0 <= k1 < k2 < hits.len() ==> (#[trigger] hits[k1]).1 != (#[trigger] hits[k2]).1,
{
    reveal(greedy_hits_ok);
}

/// A zero-population tick fires wave completion exactly once. The firing
/// step sets the edge latch; as long as the later stages carry the latch
/// through — they all do — a following tick that still reads zero cannot
/// fire completion again.
pub proof fn lemma_wave_completion_edge(
    r0: Registry,
    hit0: bool,
    r1: Registry,
    r2: Registry,
    hit1: bool,
)
    requires
        completion_fires(r0, hit0),
        r1.wave.clear_latch,
        r2.wave.clear_latch == r1.wave.clear_latch,
    ensures
        !completion_fires(r2, hit1),
{
}

/// GameOver persists until restart: along any run of state transitions in
/// which no restart is requested, a session that is over stays over.
pub proof fn lemma_game_over_persists(states: Seq<GameState>, hits: Seq<bool>, k: int)
    requires
        states.len() == hits.len() + 1,
        states[0] == GameState::GameOver,
        forall|j: int|
            0 <= j < hits.len() ==> state_transition(
                states[j],
                states[j + 1],
                #[trigger] hits[j],
                false,
            ),
        0 <= k < states.len(),
    ensures
        states[k] == GameState::GameOver,
    decreases k,
{
    if k > 0 {
        lemma_game_over_persists(states, hits, k - 1);
        assert(state_transition(states[k - 1], states[k], hits[k - 1], false));
    }
}

/// Restart lands on one canonical session shape regardless of prior session
/// length: any two freshly restarted registries agree on every observable —
/// score, live count, projectiles, player, and state.
pub proof fn lemma_restart_canonical(cfg: Config, r1: Registry, r2: Registry)
    requires
        restarted(cfg, r1),
        restarted(cfg, r2),
    ensures
        r1.score == r2.score,
        r1.wave.alive_aliens == r2.wave.alive_aliens,
        r1.projectiles@.len() == r2.projectiles@.len(),
        r1.player == r2.player,
        r1.state == r2.state,
{
}

} // verus!
