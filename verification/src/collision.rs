use vstd::prelude::*;
use crate::config::Config;
use crate::entities::{Alien, Faction, Player, Projectile, count_alive, lemma_count_alive_update};
use crate::geom::within;

verus! {

// The collision stage runs after movement and shooting, in a fixed order:
// projectile bounds exits, player shots against aliens, alien shots against
// the player, and direct alien contact. Everything is collected against the
// state the stage entered with, and all despawns are flushed once at the end,
// so the tick's view of "currently alive" stays consistent throughout.

/// A dead copy of an alien: only the alive flag changes.
pub open spec fn killed(a: Alien) -> Alien {
    Alien { alive: false, ..a }
}

/// Alien `ai` and projectile `pi` are a legitimate kill pair: the alien is
/// alive, the shot is the player's, and they are within the hit radius.
pub open spec fn hit_pair_ok(
    cfg: Config,
    aliens: Seq<Alien>,
    projs: Seq<Projectile>,
    ai: int,
    pi: int,
) -> bool {
    &&& 0 <= ai < aliens.len()
    &&& 0 <= pi < projs.len()
    &&& aliens[ai].alive
    &&& projs[pi].owner == Faction::Player
    &&& within(aliens[ai].pos, projs[pi].pos, cfg.hit_radius as int)
}

/// Some pair among the first `n` kills this alien.
pub open spec fn killed_before_n(hits: Seq<(usize, usize)>, n: int, i: int) -> bool {
    exists|k: int| 0 <= k < n && (#[trigger] hits[k]).0 == i
}

/// Some pair in the kill list kills this alien.
pub open spec fn killed_in(hits: Seq<(usize, usize)>, i: int) -> bool {
    killed_before_n(hits, hits.len() as int, i)
}

/// Some pair in the kill list consumes this projectile.
pub open spec fn consumed_in(hits: Seq<(usize, usize)>, p: int) -> bool {
    exists|k: int| 0 <= k < hits.len() && (#[trigger] hits[k]).1 == p
}

/// The kill list the scan produces, exactly: pairs are sound; aliens are
/// scanned in order and die at most once; a projectile is spent on at most
/// one kill; each kill took the first projectile still free at its turn; and
/// an alien survives only if every projectile left free misses it.
/// Kept opaque: callers take it apart through the lemmas beside it.
#[verifier::opaque]
pub open spec fn greedy_hits_ok(
    cfg: Config,
    aliens: Seq<Alien>,
    projs: Seq<Projectile>,
    hits: Seq<(usize, usize)>,
) -> bool {
    &&& forall|k: int|
        0 <= k < hits.len() ==> hit_pair_ok(
            cfg,
            aliens,
            projs,
            (#[trigger] hits[k]).0 as int,
            hits[k].1 as int,
        )
    &&& forall|k1: int, k2: int|
        0 <= k1 < k2 < hits.len() ==> (#[trigger] hits[k1]).0 < (#[trigger] hits[k2]).0
    &&& forall|k1: int, k2: int|
        0 <= k1 < k2 < hits.len() ==> (#[trigger] hits[k1]).1 != (#[trigger] hits[k2]).1
    &&& forall|k: int, p: int|
        0 <= k < hits.len() && 0 <= p < (#[trigger] hits[k]).1 as int
            && (#[trigger] projs[p]).owner == Faction::Player
            && within(aliens[hits[k].0 as int].pos, projs[p].pos, cfg.hit_radius as int)
            ==> exists|k2: int|
                0 <= k2 < hits.len() && (#[trigger] hits[k2]).1 == p && hits[k2].0 < hits[k].0
    &&& forall|a: int, p: int|
        0 <= a < aliens.len() && 0 <= p < projs.len()
            && (#[trigger] aliens[a]).alive && !killed_in(hits, a)
            && (#[trigger] projs[p]).owner == Faction::Player && !consumed_in(hits, p)
            ==> !within(aliens[a].pos, projs[p].pos, cfg.hit_radius as int)
}

/// Projectile `p` is still free for alien `a` to take: not yet consumed,
/// player-owned, and within the hit radius.
pub open spec fn free_hit(
    cfg: Config,
    a: Alien,
    projs: Seq<Projectile>,
    consumed: Seq<bool>,
    p: int,
) -> bool {
    &&& 0 <= p < projs.len()
    &&& !consumed[p]
    &&& projs[p].owner == Faction::Player
    &&& within(a.pos, projs[p].pos, cfg.hit_radius as int)
}

/// The scan's running state after the first `ai` aliens took their turns:
/// the mask mirrors the kill list, and every clause of `greedy_hits_ok`
/// holds for the prefix.
#[verifier::opaque]
pub open spec fn scan_inv(
    cfg: Config,
    aliens: Seq<Alien>,
    projs: Seq<Projectile>,
    hits: Seq<(usize, usize)>,
    consumed: Seq<bool>,
    ai: int,
) -> bool {
    &&& consumed.len() == projs.len()
    &&& forall|k: int|
        0 <= k < hits.len() ==> hit_pair_ok(
            cfg,
            aliens,
            projs,
            (#[trigger] hits[k]).0 as int,
            hits[k].1 as int,
        ) && hits[k].0 < ai
    &&& forall|k1: int, k2: int|
        0 <= k1 < k2 < hits.len() ==> (#[trigger] hits[k1]).0 < (#[trigger] hits[k2]).0
    &&& forall|k1: int, k2: int|
        0 <= k1 < k2 < hits.len() ==> (#[trigger] hits[k1]).1 != (#[trigger] hits[k2]).1
    &&& forall|p: int| 0 <= p < projs.len() ==> #[trigger] consumed[p] == consumed_in(hits, p)
    &&& forall|k: int, p: int|
        0 <= k < hits.len() && 0 <= p < (#[trigger] hits[k]).1 as int
            && (#[trigger] projs[p]).owner == Faction::Player
            && within(aliens[hits[k].0 as int].pos, projs[p].pos, cfg.hit_radius as int)
            ==> exists|k2: int|
                0 <= k2 < hits.len() && (#[trigger] hits[k2]).1 == p && hits[k2].0 < hits[k].0
    &&& forall|a: int, p: int|
        0 <= a < ai && 0 <= p < projs.len()
            && (#[trigger] aliens[a]).alive && !killed_in(hits, a)
            && (#[trigger] projs[p]).owner == Faction::Player && !consumed_in(hits, p)
            ==> !within(aliens[a].pos, projs[p].pos, cfg.hit_radius as int)
}

proof fn lemma_scan_inv_init(
    cfg: Config,
    aliens: Seq<Alien>,
    projs: Seq<Projectile>,
    consumed: Seq<bool>,
)
    requires
        consumed.len() == projs.len(),
        forall|p: int| 0 <= p < consumed.len() ==> !(#[trigger] consumed[p]),
    ensures
        scan_inv(cfg, aliens, projs, Seq::empty(), consumed, 0),
{
    reveal(scan_inv);
    let hits = Seq::<(usize, usize)>::empty();
    assert forall|p: int| 0 <= p < projs.len()
        implies #[trigger] consumed[p] == consumed_in(hits, p) by {
        assert(!consumed_in(hits, p));
    }
}

proof fn lemma_scan_inv_skip(
    cfg: Config,
    aliens: Seq<Alien>,
    projs: Seq<Projectile>,
    hits: Seq<(usize, usize)>,
    consumed: Seq<bool>,
    ai: int,
)
    requires
        scan_inv(cfg, aliens, projs, hits, consumed, ai),
        0 <= ai < aliens.len(),
        !aliens[ai].alive,
    ensures
        scan_inv(cfg, aliens, projs, hits, consumed, ai + 1),
{
    reveal(scan_inv);
}

proof fn lemma_scan_inv_miss(
    cfg: Config,
    aliens: Seq<Alien>,
    projs: Seq<Projectile>,
    hits: Seq<(usize, usize)>,
    consumed: Seq<bool>,
    ai: int,
)
    requires
        scan_inv(cfg, aliens, projs, hits, consumed, ai),
        0 <= ai < aliens.len(),
        forall|p: int| 0 <= p < projs.len() ==> !free_hit(cfg, aliens[ai], projs, consumed, p),
    ensures
        scan_inv(cfg, aliens, projs, hits, consumed, ai + 1),
{
    reveal(scan_inv);
    assert forall|a: int, p: int|
        0 <= a < ai + 1 && 0 <= p < projs.len()
            && (#[trigger] aliens[a]).alive && !killed_in(hits, a)
            && (#[trigger] projs[p]).owner == Faction::Player && !consumed_in(hits, p)
            implies !within(aliens[a].pos, projs[p].pos, cfg.hit_radius as int) by {
        if a == ai {
            assert(!free_hit(cfg, aliens[ai], projs, consumed, p));
            assert(!consumed[p]);
        }
    }
}

proof fn lemma_scan_inv_hit(
    cfg: Config,
    aliens: Seq<Alien>,
    projs: Seq<Projectile>,
    hits: Seq<(usize, usize)>,
    consumed: Seq<bool>,
    ai: usize,
    pi: usize,
)
    requires
        scan_inv(cfg, aliens, projs, hits, consumed, ai as int),
        0 <= (ai as int) < aliens.len(),
        aliens[ai as int].alive,
        free_hit(cfg, aliens[ai as int], projs, consumed, pi as int),
        forall|p: int|
            0 <= p < pi as int ==> !free_hit(cfg, aliens[ai as int], projs, consumed, p),
    ensures
        scan_inv(
            cfg,
            aliens,
            projs,
            hits.push((ai, pi)),
            consumed.update(pi as int, true),
            ai as int + 1,
        ),
{
    reveal(scan_inv);
    let hits2 = hits.push((ai, pi));
    let consumed2 = consumed.update(pi as int, true);
    let n = hits.len() as int;
    assert(hits2[n] == (ai, pi));
    assert(forall|k: int| 0 <= k < n ==> hits2[k] == #[trigger] hits[k]);

    // Soundness and ordering extend to the new pair.
    assert forall|k: int|
        0 <= k < hits2.len()
            implies hit_pair_ok(
                cfg,
                aliens,
                projs,
                (#[trigger] hits2[k]).0 as int,
                hits2[k].1 as int,
            ) && hits2[k].0 < ai as int + 1 by {
        if k < n {
            assert(hit_pair_ok(cfg, aliens, projs, hits[k].0 as int, hits[k].1 as int));
        }
    }

    // The new projectile was free, so no earlier pair consumed it.
    assert forall|k1: int, k2: int|
        0 <= k1 < k2 < hits2.len()
            implies (#[trigger] hits2[k1]).1 != (#[trigger] hits2[k2]).1 by {
        if k2 == n {
            assert(hits2[k1] == hits[k1]);
            assert(consumed_in(hits, hits[k1].1 as int));
            assert(consumed[hits[k1].1 as int]);
            assert(!consumed[pi as int]);
        }
    }

    // The mask keeps mirroring the kill list.
    assert forall|p: int| 0 <= p < projs.len()
        implies #[trigger] consumed2[p] == consumed_in(hits2, p) by {
        if p == pi as int {
            assert(hits2[n].1 == p);
            assert(consumed_in(hits2, p));
        } else {
            if consumed[p] {
                let k = choose|k: int| 0 <= k < hits.len() && (#[trigger] hits[k]).1 == p;
                assert(hits2[k].1 == p);
                assert(consumed_in(hits2, p));
            } else {
                if consumed_in(hits2, p) {
                    let k = choose|k: int| 0 <= k < hits2.len() && (#[trigger] hits2[k]).1 == p;
                    assert(k < n);
                    assert(hits[k].1 == p);
                    assert(consumed_in(hits, p));
                }
            }
        }
    }

    // Each kill still took the first projectile free at its turn.
    assert forall|k: int, p: int|
        0 <= k < hits2.len() && 0 <= p < (#[trigger] hits2[k]).1 as int
            && (#[trigger] projs[p]).owner == Faction::Player
            && within(aliens[hits2[k].0 as int].pos, projs[p].pos, cfg.hit_radius as int)
            implies exists|k2: int|
                0 <= k2 < hits2.len() && (#[trigger] hits2[k2]).1 == p
                    && hits2[k2].0 < hits2[k].0 by {
        if k < n {
            assert(hits2[k] == hits[k]);
            assert(exists|k2: int|
                0 <= k2 < hits.len() && (#[trigger] hits[k2]).1 == p && hits[k2].0 < hits[k].0);
            let k2 = choose|k2: int|
                0 <= k2 < hits.len() && (#[trigger] hits[k2]).1 == p && hits[k2].0 < hits[k].0;
            assert(hits2[k2].1 == p && hits2[k2].0 < hits2[k].0);
        } else {
            assert(hits2[k] == (ai, pi));
            assert(!free_hit(cfg, aliens[ai as int], projs, consumed, p));
            assert(consumed[p]);
            let k2 = choose|k2: int| 0 <= k2 < hits.len() && (#[trigger] hits[k2]).1 == p;
            assert(hits2[k2].1 == p);
            assert(hits2[k2].0 < ai);
        }
    }

    // Survivors up to and including this alien still have no free shot near them.
    assert forall|a: int, p: int|
        0 <= a < ai as int + 1 && 0 <= p < projs.len()
            && (#[trigger] aliens[a]).alive && !killed_in(hits2, a)
            && (#[trigger] projs[p]).owner == Faction::Player && !consumed_in(hits2, p)
            implies !within(aliens[a].pos, projs[p].pos, cfg.hit_radius as int) by {
        assert(hits2[n].0 == ai);
        if a == ai as int {
            assert(killed_in(hits2, a));
        } else {
            if killed_in(hits, a) {
                let k = choose|k: int| 0 <= k < hits.len() && (#[trigger] hits[k]).0 == a;
                assert(hits2[k].0 == a);
                assert(killed_in(hits2, a));
            } else {
                if consumed_in(hits, p) {
                    let k = choose|k: int| 0 <= k < hits.len() && (#[trigger] hits[k]).1 == p;
                    assert(hits2[k].1 == p);
                    assert(consumed_in(hits2, p));
                } else {
                    assert(!within(aliens[a].pos, projs[p].pos, cfg.hit_radius as int));
                }
            }
        }
    }
}

proof fn lemma_scan_inv_done(
    cfg: Config,
    aliens: Seq<Alien>,
    projs: Seq<Projectile>,
    hits: Seq<(usize, usize)>,
    consumed: Seq<bool>,
)
    requires
        scan_inv(cfg, aliens, projs, hits, consumed, aliens.len() as int),
    ensures
        greedy_hits_ok(cfg, aliens, projs, hits),
        consumed.len() == projs.len(),
        forall|p: int| 0 <= p < projs.len() ==> #[trigger] consumed[p] == consumed_in(hits, p),
{
    reveal(scan_inv);
    reveal(greedy_hits_ok);
}

/// What the apply pass needs from a sound kill list: targets are in range of
/// the list, alive, and paired in strictly increasing order.
pub proof fn lemma_greedy_apply_pre(
    cfg: Config,
    aliens: Seq<Alien>,
    projs: Seq<Projectile>,
    hits: Seq<(usize, usize)>,
)
    requires
        greedy_hits_ok(cfg, aliens, projs, hits),
    ensures
        forall|k: int|
            0 <= k < hits.len()
                ==> ((#[trigger] hits[k]).0 as int) < aliens.len()
                    && aliens[hits[k].0 as int].alive,
        forall|k1: int, k2: int|
            0 <= k1 < k2 < hits.len() ==> (#[trigger] hits[k1]).0 < (#[trigger] hits[k2]).0,
        forall|k1: int, k2: int|
            0 <= k1 < k2 < hits.len() ==> (#[trigger] hits[k1]).1 != (#[trigger] hits[k2]).1,
        hits.len() <= aliens.len(),
{
    reveal(greedy_hits_ok);
    if hits.len() > aliens.len() {
        assert(hits[aliens.len() as int].0 as int >= aliens.len()) by {
            lemma_greedy_indices_grow(cfg, aliens, projs, hits, aliens.len() as int);
        }
        assert(hit_pair_ok(
            cfg,
            aliens,
            projs,
            hits[aliens.len() as int].0 as int,
            hits[aliens.len() as int].1 as int,
        ));
    }
}

/// In a strictly increasing kill list the `k`th alien index is at least `k`.
proof fn lemma_greedy_indices_grow(
    cfg: Config,
    aliens: Seq<Alien>,
    projs: Seq<Projectile>,
    hits: Seq<(usize, usize)>,
    k: int,
)
    requires
        greedy_hits_ok(cfg, aliens, projs, hits),
        0 <= k < hits.len(),
    ensures
        hits[k].0 as int >= k,
    decreases k,
{
    reveal(greedy_hits_ok);
    if k > 0 {
        lemma_greedy_indices_grow(cfg, aliens, projs, hits, k - 1);
    }
}

/// Scan for the first projectile still free to hit this alien.
fn first_hit(
    cfg: &Config,
    a: &Alien,
    projectiles: &Vec<Projectile>,
    consumed: &Vec<bool>,
) -> (r: Option<usize>)
    requires
        cfg.valid(),
        a.wf(),
        forall|p: int|
            0 <= p < projectiles@.len() ==> (#[trigger] projectiles@[p]).wf(),
        consumed@.len() == projectiles@.len(),
    ensures
        match r {
            Some(pi) => free_hit(*cfg, *a, projectiles@, consumed@, pi as int)
                && forall|p: int| 0 <= p < pi as int
                    ==> !free_hit(*cfg, *a, projectiles@, consumed@, p),
            None => forall|p: int| 0 <= p < projectiles@.len()
                ==> !free_hit(*cfg, *a, projectiles@, consumed@, p),
        },
{
    let mut pi: usize = 0;
    while pi < projectiles.len()
        invariant
            cfg.valid(),
            a.wf(),
            forall|p: int|
                0 <= p < projectiles@.len() ==> (#[trigger] projectiles@[p]).wf(),
            consumed@.len() == projectiles@.len(),
            0 <= pi <= projectiles@.len(),
            forall|p: int| 0 <= p < pi as int
                ==> !free_hit(*cfg, *a, projectiles@, consumed@, p),
        decreases projectiles@.len() - pi,
    {
        if !consumed[pi] && projectiles[pi].owner == Faction::Player {
            if crate::geom::within_radius(a.pos, projectiles[pi].pos, cfg.hit_radius) {
                return Some(pi);
            }
        }
        pi = pi + 1;
    }
    None
}

/// A mask of `n` entries, all clear.
fn false_mask(n: usize) -> (m: Vec<bool>)
    ensures
        m@.len() == n as int,
        forall|p: int| 0 <= p < n as int ==> !(#[trigger] m@[p]),
{
    let mut m: Vec<bool> = Vec::new();
    let mut j: usize = 0;
    while j < n
        invariant
            0 <= j <= n,
            m@.len() == j as int,
            forall|p: int| 0 <= p < j as int ==> !(#[trigger] m@[p]),
        decreases n - j,
    {
        m.push(false);
        j = j + 1;
    }
    m
}

/// The scan loop itself: its whole contract is the opaque running invariant,
/// landed at the last alien.
fn scan_aliens(
    cfg: &Config,
    aliens: &Vec<Alien>,
    projectiles: &Vec<Projectile>,
) -> (out: (Vec<(usize, usize)>, Vec<bool>))
    requires
        cfg.valid(),
        forall|i: int| 0 <= i < aliens@.len() ==> (#[trigger] aliens@[i]).wf(),
        forall|p: int|
            0 <= p < projectiles@.len() ==> (#[trigger] projectiles@[p]).wf(),
    ensures
        scan_inv(*cfg, aliens@, projectiles@, out.0@, out.1@, aliens@.len() as int),
{
    let mut hits: Vec<(usize, usize)> = Vec::new();
    let mut consumed: Vec<bool> = false_mask(projectiles.len());
    proof {
        lemma_scan_inv_init(*cfg, aliens@, projectiles@, consumed@);
        assert(hits@ =~= Seq::<(usize, usize)>::empty());
    }

    let mut ai: usize = 0;
    while ai < aliens.len()
        invariant
            cfg.valid(),
            forall|i: int| 0 <= i < aliens@.len() ==> (#[trigger] aliens@[i]).wf(),
            forall|p: int|
                0 <= p < projectiles@.len() ==> (#[trigger] projectiles@[p]).wf(),
            0 <= ai <= aliens@.len(),
            consumed@.len() == projectiles@.len(),
            scan_inv(*cfg, aliens@, projectiles@, hits@, consumed@, ai as int),
        decreases aliens@.len() - ai,
    {
        if aliens[ai].alive {
            let a = aliens[ai];
            match first_hit(cfg, &a, projectiles, &consumed) {
                Some(pi) => {
                    proof {
                        lemma_scan_inv_hit(
                            *cfg,
                            aliens@,
                            projectiles@,
                            hits@,
                            consumed@,
                            ai,
                            pi,
                        );
                    }
                    hits.push((ai, pi));
                    consumed.set(pi, true);
                }
                None => {
                    proof {
                        lemma_scan_inv_miss(
                            *cfg,
                            aliens@,
                            projectiles@,
                            hits@,
                            consumed@,
                            ai as int,
                        );
                    }
                }
            }
        } else {
            proof {
                lemma_scan_inv_skip(*cfg, aliens@, projectiles@, hits@, consumed@, ai as int);
            }
        }
        ai = ai + 1;
    }
    (hits, consumed)
}

/// Addition that stops at the top of `u64` instead of wrapping. The score
/// cannot overflow however long a session runs.
pub open spec fn sat_add_u64(a: int, b: int) -> int {
    if a + b <= u64::MAX {
        a + b
    } else {
        u64::MAX as int
    }
}

fn sat_add64(a: u64, b: u64) -> (r: u64)
    ensures
        r as int == sat_add_u64(a as int, b as int),
{
    if a <= u64::MAX - b {
        a + b
    } else {
        u64::MAX
    }
}

/// Second pass of the player-shot check: flip the paired aliens to dead and
/// award one point per confirmed kill. Only the alive flags change, and the
/// live count drops by exactly the number of pairs.
pub fn apply_hits(
    aliens: &mut Vec<Alien>,
    score: &mut crate::registry::Score,
    hits: &Vec<(usize, usize)>,
)
    requires
        forall|k: int|
            0 <= k < hits@.len()
                ==> ((#[trigger] hits@[k]).0 as int) < old(aliens)@.len()
                    && old(aliens)@[hits@[k].0 as int].alive,
        forall|k1: int, k2: int|
            0 <= k1 < k2 < hits@.len() ==> (#[trigger] hits@[k1]).0 < (#[trigger] hits@[k2]).0,
    ensures
        final(aliens)@.len() == old(aliens)@.len(),
        forall|i: int|
            0 <= i < old(aliens)@.len()
                ==> #[trigger] final(aliens)@[i] == if killed_in(hits@, i) {
                    killed(old(aliens)@[i])
                } else {
                    old(aliens)@[i]
                },
        count_alive(final(aliens)@) + hits@.len() == count_alive(old(aliens)@),
        final(score).value as int == sat_add_u64(old(score).value as int, hits@.len() as int),
{
    let ghost orig = aliens@;
    let ghost orig_score = score.value;
    let mut k: usize = 0;
    while k < hits.len()
        invariant
            score.value as int == sat_add_u64(orig_score as int, k as int),
            forall|k2: int|
                0 <= k2 < hits@.len()
                    ==> ((#[trigger] hits@[k2]).0 as int) < orig.len()
                        && orig[hits@[k2].0 as int].alive,
            forall|k1: int, k2: int|
                0 <= k1 < k2 < hits@.len()
                    ==> (#[trigger] hits@[k1]).0 < (#[trigger] hits@[k2]).0,
            0 <= k <= hits@.len(),
            aliens@.len() == orig.len(),
            forall|i: int|
                0 <= i < orig.len()
                    ==> #[trigger] aliens@[i] == if killed_before_n(hits@, k as int, i) {
                        killed(orig[i])
                    } else {
                        orig[i]
                    },
            count_alive(aliens@) + k as int == count_alive(orig) as int,
        decreases hits@.len() - k,
    {
        let (ai, _pi) = hits[k];
        proof {
            assert(!killed_before_n(hits@, k as int, ai as int));
            assert(aliens@[ai as int] == orig[ai as int]);
        }
        let ghost before = aliens@;
        let mut a = aliens[ai];
        a.alive = false;
        proof {
            assert(a == killed(orig[ai as int]));
            lemma_count_alive_update(before, ai as int, a);
        }
        aliens.set(ai, a);
        proof {
            assert forall|i: int|
                0 <= i < orig.len()
                    implies #[trigger] aliens@[i] == if killed_before_n(hits@, k as int + 1, i) {
                        killed(orig[i])
                    } else {
                        orig[i]
                    } by {
                if i == ai as int {
                    assert(hits@[k as int].0 == ai);
                    assert(killed_before_n(hits@, k as int + 1, i));
                } else {
                    if killed_before_n(hits@, k as int, i) {
                        let k2 = choose|k2: int|
                            0 <= k2 < k as int && (#[trigger] hits@[k2]).0 == i;
                        assert(killed_before_n(hits@, k as int + 1, i));
                    } else {
                        if killed_before_n(hits@, k as int + 1, i) {
                            let k2 = choose|k2: int|
                                0 <= k2 < k as int + 1 && (#[trigger] hits@[k2]).0 == i;
                            assert(k2 == k as int);
                            assert(false);
                        }
                    }
                }
            }
        }
        score.value = sat_add64(score.value, 1);
        k = k + 1;
    }
}

/// First pass of the player-shot check: walk the alive aliens in order and
/// pair each with the first free projectile in range, consuming it, so one
/// projectile kills at most one alien. Nothing is mutated yet. The returned
/// mask marks exactly the consumed projectiles.
pub fn collect_hits(
    cfg: &Config,
    aliens: &Vec<Alien>,
    projectiles: &Vec<Projectile>,
) -> (out: (Vec<(usize, usize)>, Vec<bool>))
    requires
        cfg.valid(),
        forall|i: int| 0 <= i < aliens@.len() ==> (#[trigger] aliens@[i]).wf(),
        forall|p: int|
            0 <= p < projectiles@.len() ==> (#[trigger] projectiles@[p]).wf(),
    ensures
        greedy_hits_ok(*cfg, aliens@, projectiles@, out.0@),
        out.1@.len() == projectiles@.len(),
        forall|p: int|
            0 <= p < projectiles@.len()
                ==> #[trigger] out.1@[p] == consumed_in(out.0@, p),
{
    let out = scan_aliens(cfg, aliens, projectiles);
    proof {
        lemma_scan_inv_done(*cfg, aliens@, projectiles@, out.0@, out.1@);
    }
    out
}

/// The subsequence of projectiles whose mask entry is set, in order.
pub open spec fn retain_by_mask(s: Seq<Projectile>, keep: Seq<bool>) -> Seq<Projectile>
    recommends
        s.len() == keep.len(),
    decreases s.len(),
{
    if s.len() == 0 {
        Seq::empty()
    } else {
        let rest = retain_by_mask(s.drop_last(), keep.drop_last());
        if keep.len() == s.len() && keep[s.len() - 1] {
            rest.push(s.last())
        } else {
            rest
        }
    }
}

pub proof fn lemma_retain_take_succ(s: Seq<Projectile>, keep: Seq<bool>, i: int)
    requires
        s.len() == keep.len(),
        0 <= i < s.len(),
    ensures
        retain_by_mask(s.take(i + 1), keep.take(i + 1)) == if keep[i] {
            retain_by_mask(s.take(i), keep.take(i)).push(s[i])
        } else {
            retain_by_mask(s.take(i), keep.take(i))
        },
{
    assert(s.take(i + 1).drop_last() =~= s.take(i));
    assert(keep.take(i + 1).drop_last() =~= keep.take(i));
    assert(s.take(i + 1).last() == s[i]);
}

/// A projectile survives the flush when it is not consumed by a kill, is
/// still inside the vertical play bounds, and is not an alien shot that has
/// just struck the player.
pub open spec fn keep_proj(
    cfg: Config,
    player: Option<Player>,
    q: Projectile,
    consumed: bool,
) -> bool {
    &&& !consumed
    &&& cfg.in_vertical_bounds_spec(q.pos.y as int)
    &&& !(q.owner == Faction::Alien && player is Some
        && within(player->Some_0.pos, q.pos, cfg.hit_radius as int))
}

/// The flush mask over a projectile list, from an explicit consumed mask.
pub open spec fn prune_mask(
    cfg: Config,
    player: Option<Player>,
    projs: Seq<Projectile>,
    consumed: Seq<bool>,
) -> Seq<bool> {
    Seq::new(projs.len(), |p: int| keep_proj(cfg, player, projs[p], consumed[p]))
}

/// The flush mask over a projectile list, from the kill list itself.
pub open spec fn despawn_mask(
    cfg: Config,
    player: Option<Player>,
    projs: Seq<Projectile>,
    hits: Seq<(usize, usize)>,
) -> Seq<bool> {
    Seq::new(projs.len(), |p: int| keep_proj(cfg, player, projs[p], consumed_in(hits, p)))
}

/// Flush every queued despawn at once: spent projectiles, bounds exits, and
/// alien shots that reached the player all leave in a single pass.
pub fn prune_projectiles(
    cfg: &Config,
    projectiles: &mut Vec<Projectile>,
    consumed: &Vec<bool>,
    player: Option<Player>,
)
    requires
        cfg.valid(),
        consumed@.len() == old(projectiles)@.len(),
        forall|p: int|
            0 <= p < old(projectiles)@.len() ==> (#[trigger] old(projectiles)@[p]).wf(),
        player is Some ==> player->Some_0.wf(),
    ensures
        final(projectiles)@ == retain_by_mask(
            old(projectiles)@,
            prune_mask(*cfg, player, old(projectiles)@, consumed@),
        ),
        forall|j: int|
            0 <= j < final(projectiles)@.len()
                ==> (#[trigger] final(projectiles)@[j]).wf()
                    && cfg.in_vertical_bounds_spec(final(projectiles)@[j].pos.y as int),
{
    let ghost orig = projectiles@;
    let ghost mask = prune_mask(*cfg, player, projectiles@, consumed@);
    let mut out: Vec<Projectile> = Vec::new();
    let mut p: usize = 0;
    while p < projectiles.len()
        invariant
            cfg.valid(),
            projectiles@ == orig,
            consumed@.len() == orig.len(),
            forall|q: int| 0 <= q < orig.len() ==> (#[trigger] orig[q]).wf(),
            player is Some ==> player->Some_0.wf(),
            mask == prune_mask(*cfg, player, orig, consumed@),
            0 <= p <= orig.len(),
            out@ == retain_by_mask(orig.take(p as int), mask.take(p as int)),
            forall|j: int|
                0 <= j < out@.len()
                    ==> (#[trigger] out@[j]).wf()
                        && cfg.in_vertical_bounds_spec(out@[j].pos.y as int),
        decreases orig.len() - p,
    {
        let q = projectiles[p];
        let mut keep: bool = !consumed[p] && cfg.in_vertical_bounds(q.pos.y);
        if keep && q.owner == Faction::Alien {
            if let Some(pl) = player {
                if crate::geom::within_radius(pl.pos, q.pos, cfg.hit_radius) {
                    keep = false;
                }
            }
        }
        proof {
            assert(keep == keep_proj(*cfg, player, orig[p as int], consumed@[p as int]));
            assert(mask[p as int] == keep);
            lemma_retain_take_succ(orig, mask, p as int);
        }
        if keep {
            out.push(q);
        }
        p = p + 1;
    }
    proof {
        assert(orig.take(orig.len() as int) =~= orig);
        assert(mask.take(orig.len() as int) =~= mask);
    }
    *projectiles = out;
}

/// Has an alien shot reached the player this tick?
pub fn projectile_hits_player(
    cfg: &Config,
    pl: &Player,
    projectiles: &Vec<Projectile>,
) -> (b: bool)
    requires
        cfg.valid(),
        pl.wf(),
        forall|p: int|
            0 <= p < projectiles@.len() ==> (#[trigger] projectiles@[p]).wf(),
    ensures
        b == exists|p: int|
            0 <= p < projectiles@.len() && (#[trigger] projectiles@[p]).owner == Faction::Alien
                && within(pl.pos, projectiles@[p].pos, cfg.hit_radius as int),
{
    let mut p: usize = 0;
    while p < projectiles.len()
        invariant
            cfg.valid(),
            pl.wf(),
            forall|q: int|
                0 <= q < projectiles@.len() ==> (#[trigger] projectiles@[q]).wf(),
            0 <= p <= projectiles@.len(),
            forall|q: int|
                0 <= q < p as int
                    ==> !((#[trigger] projectiles@[q]).owner == Faction::Alien
                        && within(pl.pos, projectiles@[q].pos, cfg.hit_radius as int)),
        decreases projectiles@.len() - p,
    {
        if projectiles[p].owner == Faction::Alien {
            if crate::geom::within_radius(pl.pos, projectiles[p].pos, cfg.hit_radius) {
                return true;
            }
        }
        p = p + 1;
    }
    false
}

/// Is an alive alien in direct contact with the player this tick?
pub fn alien_contacts_player(cfg: &Config, pl: &Player, aliens: &Vec<Alien>) -> (b: bool)
    requires
        cfg.valid(),
        pl.wf(),
        forall|i: int| 0 <= i < aliens@.len() ==> (#[trigger] aliens@[i]).wf(),
    ensures
        b == exists|a: int|
            0 <= a < aliens@.len() && (#[trigger] aliens@[a]).alive
                && within(pl.pos, aliens@[a].pos, cfg.contact_radius as int),
{
    let mut i: usize = 0;
    while i < aliens.len()
        invariant
            cfg.valid(),
            pl.wf(),
            forall|a: int| 0 <= a < aliens@.len() ==> (#[trigger] aliens@[a]).wf(),
            0 <= i <= aliens@.len(),
            forall|a: int|
                0 <= a < i as int
                    ==> !((#[trigger] aliens@[a]).alive
                        && within(pl.pos, aliens@[a].pos, cfg.contact_radius as int)),
        decreases aliens@.len() - i,
    {
        if aliens[i].alive {
            if crate::geom::within_radius(pl.pos, aliens[i].pos, cfg.contact_radius) {
                return true;
            }
        }
        i = i + 1;
    }
    false
}

/// A player-hit event occurred against the state the collision stage entered
/// with: an alien shot within the hit radius of the player, or an alive alien
/// within the contact radius.
#[verifier::opaque]
pub open spec fn player_hit_spec(
    cfg: Config,
    aliens: Seq<Alien>,
    projs: Seq<Projectile>,
    player: Option<Player>,
) -> bool {
    player is Some && {
        let pp = player->Some_0.pos;
        ||| exists|p: int|
            0 <= p < projs.len() && (#[trigger] projs[p]).owner == Faction::Alien
                && within(pp, projs[p].pos, cfg.hit_radius as int)
        ||| exists|a: int|
            0 <= a < aliens.len() && (#[trigger] aliens[a]).alive
                && within(pp, aliens[a].pos, cfg.contact_radius as int)
    }
}

/// The collision stage's whole effect as a relation between the registry it
/// entered with and the one it left, over the kill list and the player-hit
/// event it reported. Kept opaque; `resolve_collisions` establishes it and
/// the tick contract chains it.
#[verifier::opaque]
pub open spec fn collisions_resolved(
    cfg: Config,
    r0: crate::registry::Registry,
    r1: crate::registry::Registry,
    hits: Seq<(usize, usize)>,
    player_hit: bool,
) -> bool {
    &&& r1.wf(cfg)
    &&& greedy_hits_ok(cfg, r0.aliens@, r0.projectiles@, hits)
    &&& r1.aliens@.len() == r0.aliens@.len()
    &&& forall|i: int|
        0 <= i < r0.aliens@.len() ==> #[trigger] r1.aliens@[i] == if killed_in(hits, i) {
            killed(r0.aliens@[i])
        } else {
            r0.aliens@[i]
        }
    &&& r1.score.value as int == sat_add_u64(r0.score.value as int, hits.len() as int)
    &&& count_alive(r1.aliens@) + hits.len() == count_alive(r0.aliens@)
    &&& r1.wave.alive_aliens == count_alive(r1.aliens@)
    &&& r1.wave.spawn_timer == r0.wave.spawn_timer
    &&& r1.wave.clear_latch == r0.wave.clear_latch
    &&& r1.projectiles@ == retain_by_mask(
        r0.projectiles@,
        despawn_mask(cfg, r0.player, r0.projectiles@, hits),
    )
    &&& forall|j: int|
        0 <= j < r1.projectiles@.len() ==> cfg.in_vertical_bounds_spec(
            (#[trigger] r1.projectiles@[j]).pos.y as int,
        )
    &&& player_hit == player_hit_spec(cfg, r0.aliens@, r0.projectiles@, r0.player)
    &&& r1.player == r0.player
    &&& r1.state == r0.state
    &&& r1.next_id == r0.next_id
}

/// The collision stage. Against the state it entered with, it pairs player
/// shots with aliens (one shot, at most one kill), detects player-hit events,
/// then applies every change at one flush: paired aliens die, the score grows
/// by one per kill, spent and out-of-bounds and player-striking projectiles
/// leave, and the live count is brought back in line with the alive flags.
/// Returns the kill list and whether a player-hit event occurred.
#[verifier::rlimit(100)]
pub fn resolve_collisions(cfg: &Config, reg: &mut crate::registry::Registry) -> (out: (
    Vec<(usize, usize)>,
    bool,
))
    requires
        cfg.valid(),
        old(reg).wf(*cfg),
    ensures
        final(reg).wf(*cfg),
        greedy_hits_ok(*cfg, old(reg).aliens@, old(reg).projectiles@, out.0@),
        final(reg).aliens@.len() == old(reg).aliens@.len(),
        forall|i: int|
            0 <= i < old(reg).aliens@.len()
                ==> #[trigger] final(reg).aliens@[i] == if killed_in(out.0@, i) {
                    killed(old(reg).aliens@[i])
                } else {
                    old(reg).aliens@[i]
                },
        final(reg).score.value as int == sat_add_u64(
            old(reg).score.value as int,
            out.0@.len() as int,
        ),
        count_alive(final(reg).aliens@) + out.0@.len() == count_alive(old(reg).aliens@),
        final(reg).wave.alive_aliens == count_alive(final(reg).aliens@),
        final(reg).wave.spawn_timer == old(reg).wave.spawn_timer,
        final(reg).wave.clear_latch == old(reg).wave.clear_latch,
        final(reg).projectiles@ == retain_by_mask(
            old(reg).projectiles@,
            despawn_mask(*cfg, old(reg).player, old(reg).projectiles@, out.0@),
        ),
        forall|j: int|
            0 <= j < final(reg).projectiles@.len()
                ==> cfg.in_vertical_bounds_spec(
                    (#[trigger] final(reg).projectiles@[j]).pos.y as int,
                ),
        out.1 == player_hit_spec(
            *cfg,
            old(reg).aliens@,
            old(reg).projectiles@,
            old(reg).player,
        ),
        final(reg).player == old(reg).player,
        final(reg).state == old(reg).state,
        final(reg).next_id == old(reg).next_id,
        collisions_resolved(*cfg, *old(reg), *final(reg), out.0@, out.1),
{
    proof {
        reveal(collisions_resolved);
    }
    let ghost aliens0 = reg.aliens@;
    let ghost projs0 = reg.projectiles@;

    // Collect phase: nothing is mutated while anything is being scanned.
    let (hits, consumed) = collect_hits(cfg, &reg.aliens, &reg.projectiles);
    let player_hit: bool = match reg.player {
        Some(pl) => {
            let by_shot = projectile_hits_player(cfg, &pl, &reg.projectiles);
            let by_contact = alien_contacts_player(cfg, &pl, &reg.aliens);
            by_shot || by_contact
        },
        None => false,
    };
    proof {
        reveal(player_hit_spec);
        assert(player_hit == player_hit_spec(*cfg, aliens0, projs0, reg.player));
        lemma_greedy_apply_pre(*cfg, aliens0, projs0, hits@);
    }

    // Apply phase: flips, score, and one flush of every queued despawn.
    apply_hits(&mut reg.aliens, &mut reg.score, &hits);
    prune_projectiles(cfg, &mut reg.projectiles, &consumed, reg.player);
    let n = crate::entities::recount_alive(&reg.aliens);
    reg.wave.alive_aliens = n;

    proof {
        assert(prune_mask(*cfg, reg.player, projs0, consumed@)
            =~= despawn_mask(*cfg, reg.player, projs0, hits@));
        lemma_killed_pointwise(aliens0, reg.aliens@, hits@, reg.next_id);
    }
    (hits, player_hit)
}

/// Killing some aliens in place keeps every structural property of the list:
/// well-formedness, the ids, their freshness and their distinctness.
proof fn lemma_killed_pointwise(
    aliens0: Seq<Alien>,
    aliens1: Seq<Alien>,
    hits: Seq<(usize, usize)>,
    next_id: u64,
)
    requires
        aliens1.len() == aliens0.len(),
        forall|i: int|
            0 <= i < aliens0.len()
                ==> #[trigger] aliens1[i] == if killed_in(hits, i) {
                    killed(aliens0[i])
                } else {
                    aliens0[i]
                },
        forall|i: int| 0 <= i < aliens0.len() ==> (#[trigger] aliens0[i]).wf(),
        forall|i: int| 0 <= i < aliens0.len() ==> (#[trigger] aliens0[i]).id < next_id,
        forall|i: int, j: int|
            0 <= i < j < aliens0.len()
                ==> (#[trigger] aliens0[i]).id != (#[trigger] aliens0[j]).id,
    ensures
        forall|i: int| 0 <= i < aliens1.len() ==> (#[trigger] aliens1[i]).wf(),
        forall|i: int| 0 <= i < aliens1.len() ==> (#[trigger] aliens1[i]).id < next_id,
        forall|i: int, j: int|
            0 <= i < j < aliens1.len()
                ==> (#[trigger] aliens1[i]).id != (#[trigger] aliens1[j]).id,
{
    assert forall|i: int| 0 <= i < aliens1.len()
        implies (#[trigger] aliens1[i]).wf() && aliens1[i].id == aliens0[i].id by {
        assert(aliens1[i] == if killed_in(hits, i) {
            killed(aliens0[i])
        } else {
            aliens0[i]
        });
    }
}

} // verus!
