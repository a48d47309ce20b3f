use vstd::prelude::*;
use crate::config::Config;
use crate::entities::{Alien, Faction, Projectile};
use crate::geom::DT_LIMIT;
use crate::input::InputState;
use crate::registry::Registry;
use crate::rng::rand_between;

verus! {

// The shoot stage drives the attack cooldowns. The player's timer counts
// down every tick and a shot requested while it sits at zero fires a bullet
// upward and rewinds the timer. Each alive alien counts its own timer down;
// at zero, a per-tick random gate desynchronizes the volley: only when it
// passes does the alien fire downward and rewind. Projectiles are only
// appended here, never moved or removed.

/// Subtraction that stops at zero: how every countdown timer steps.
pub open spec fn sat_sub_spec(a: int, b: int) -> int {
    if a <= b {
        0
    } else {
        a - b
    }
}

fn sat_sub64(a: u64, b: u64) -> (r: u64)
    ensures
        r as int == sat_sub_spec(a as int, b as int),
{
    if a <= b {
        0
    } else {
        a - b
    }
}

/// The player fires this tick: present, requesting, and off cooldown.
pub open spec fn player_fires(reg: Registry, input: InputState, dt: u64) -> bool {
    reg.player is Some && input.shoot_requested && sat_sub_spec(
        reg.player->Some_0.shoot_timer as int,
        dt as int,
    ) == 0
}

/// What the player appends this tick: one upward bullet from its position
/// when a shot is owed, nothing otherwise.
pub open spec fn player_volley(cfg: Config, reg: Registry, input: InputState, dt: u64) -> Seq<
    Projectile,
> {
    if player_fires(reg, input, dt) {
        seq![
            Projectile {
                owner: Faction::Player,
                pos: reg.player->Some_0.pos,
                speed: cfg.bullet_speed,
            },
        ]
    } else {
        Seq::empty()
    }
}

/// The downward shot an alien fires, from where it stands.
pub open spec fn alien_shot(cfg: Config, a: Alien) -> Projectile {
    Projectile { owner: Faction::Alien, pos: a.pos, speed: cfg.alien_projectile_speed }
}

/// The volley a firing mask produces: one shot per set index, at that
/// alien's position, in alien order.
pub open spec fn alien_volley(cfg: Config, aliens: Seq<Alien>, fires: Seq<bool>) -> Seq<Projectile>
    recommends
        aliens.len() == fires.len(),
    decreases aliens.len(),
{
    if aliens.len() == 0 {
        Seq::empty()
    } else {
        let rest = alien_volley(cfg, aliens.drop_last(), fires.drop_last());
        if fires.len() == aliens.len() && fires[aliens.len() - 1] {
            rest.push(alien_shot(cfg, aliens.last()))
        } else {
            rest
        }
    }
}

proof fn lemma_volley_push(cfg: Config, pre: Seq<Alien>, a: Alien, fires: Seq<bool>, fired: bool)
    requires
        fires.len() == pre.len(),
    ensures
        alien_volley(cfg, pre.push(a), fires.push(fired)) == if fired {
            alien_volley(cfg, pre, fires).push(alien_shot(cfg, a))
        } else {
            alien_volley(cfg, pre, fires)
        },
{
    assert(pre.push(a).drop_last() =~= pre);
    assert(fires.push(fired).drop_last() =~= fires);
    assert(pre.push(a).last() == a);
}

/// A fire mask is sound for the chance gate: only an alive alien whose
/// cooldown has run out fires; a certain gate forces the shot, an impossible
/// gate forbids it; what lies between is the draw's to decide.
pub open spec fn fire_mask_ok(cfg: Config, aliens: Seq<Alien>, fires: Seq<bool>, dt: u64) -> bool {
    &&& fires.len() == aliens.len()
    &&& forall|i: int|
        0 <= i < aliens.len() ==> ((#[trigger] fires[i]) ==> aliens[i].alive && sat_sub_spec(
            aliens[i].shoot_timer as int,
            dt as int,
        ) == 0)
    &&& (cfg.shoot_chance_pct == 100 ==> forall|i: int|
        0 <= i < aliens.len() && (#[trigger] aliens[i]).alive && sat_sub_spec(
            aliens[i].shoot_timer as int,
            dt as int,
        ) == 0 ==> fires[i])
    &&& (cfg.shoot_chance_pct == 0 ==> forall|i: int|
        0 <= i < aliens.len() ==> !(#[trigger] fires[i]))
}

/// One alien after the cooldown stage, given its fire decision: the timer
/// rewinds on a shot and counts down otherwise; nothing else moves.
pub open spec fn cooldown_stepped(cfg: Config, a: Alien, fired: bool, dt: u64) -> Alien {
    Alien {
        shoot_timer: if fired {
            cfg.alien_cooldown
        } else {
            sat_sub_spec(a.shoot_timer as int, dt as int) as u64
        },
        ..a
    }
}

/// The shoot stage's whole effect as a relation between the registry it
/// entered with and the one it left: the player's owed shot and the alien
/// volley of some gate-sound fire mask were appended, each cooldown
/// followed its decision, and nothing else moved. Kept opaque;
/// `shoot_step` establishes it and the tick contract chains it.
#[verifier::opaque]
pub open spec fn shot_stepped(
    cfg: Config,
    r0: Registry,
    r1: Registry,
    input: InputState,
    dt: u64,
) -> bool {
    &&& r1.wf(cfg)
    &&& r1.aliens@.len() == r0.aliens@.len()
    &&& exists|fires: Seq<bool>|
        {
            &&& #[trigger] fire_mask_ok(cfg, r0.aliens@, fires, dt)
            &&& (forall|i: int|
                0 <= i < r0.aliens@.len() ==> #[trigger] r1.aliens@[i] == if r0.aliens@[i].alive {
                    cooldown_stepped(cfg, r0.aliens@[i], fires[i], dt)
                } else {
                    r0.aliens@[i]
                })
            &&& r1.projectiles@ == r0.projectiles@ + player_volley(cfg, r0, input, dt)
                + alien_volley(cfg, r0.aliens@, fires)
        }
    &&& (r0.player is None ==> r1.player is None)
    &&& (r0.player is Some ==> r1.player is Some
        && r1.player->Some_0.pos == r0.player->Some_0.pos
        && (if player_fires(r0, input, dt) {
            r1.player->Some_0.shoot_timer == cfg.player_cooldown
        } else {
            r1.player->Some_0.shoot_timer as int == sat_sub_spec(
                r0.player->Some_0.shoot_timer as int,
                dt as int,
            )
        }))
    &&& r1.score == r0.score
    &&& r1.wave == r0.wave
    &&& r1.state == r0.state
    &&& r1.next_id == r0.next_id
}

/// The shoot-controller stage. The appended projectiles are exactly the
/// player's owed shot followed by the alien volley of some fire mask that is
/// sound for the chance gate; each alien's cooldown follows its decision.
pub fn shoot_step(cfg: &Config, reg: &mut Registry, input: &InputState, dt: u64)
    requires
        cfg.valid(),
        old(reg).wf(*cfg),
        input.wf(),
        dt <= DT_LIMIT,
    ensures
        final(reg).wf(*cfg),
        final(reg).aliens@.len() == old(reg).aliens@.len(),
        exists|fires: Seq<bool>|
            {
                &&& #[trigger] fire_mask_ok(*cfg, old(reg).aliens@, fires, dt)
                &&& (forall|i: int|
                    0 <= i < old(reg).aliens@.len()
                        ==> #[trigger] final(reg).aliens@[i] == if old(reg).aliens@[i].alive {
                            cooldown_stepped(*cfg, old(reg).aliens@[i], fires[i], dt)
                        } else {
                            old(reg).aliens@[i]
                        })
                &&& final(reg).projectiles@ == old(reg).projectiles@ + player_volley(
                    *cfg,
                    *old(reg),
                    *input,
                    dt,
                ) + alien_volley(*cfg, old(reg).aliens@, fires)
            },
        // the player: position held, cooldown stepped, rewound on firing
        old(reg).player is None ==> final(reg).player is None,
        old(reg).player is Some ==> final(reg).player is Some
            && final(reg).player->Some_0.pos == old(reg).player->Some_0.pos
            && (if player_fires(*old(reg), *input, dt) {
                final(reg).player->Some_0.shoot_timer == cfg.player_cooldown
            } else {
                final(reg).player->Some_0.shoot_timer as int == sat_sub_spec(
                    old(reg).player->Some_0.shoot_timer as int,
                    dt as int,
                )
            }),
        final(reg).score == old(reg).score,
        final(reg).wave == old(reg).wave,
        final(reg).state == old(reg).state,
        final(reg).next_id == old(reg).next_id,
        shot_stepped(*cfg, *old(reg), *final(reg), *input, dt),
{
    let ghost aliens0 = reg.aliens@;
    let ghost projs0 = reg.projectiles@;

    match reg.player {
        Some(mut pl) => {
            let t = sat_sub64(pl.shoot_timer, dt);
            pl.shoot_timer = t;
            if input.shoot_requested && t == 0 {
                pl.shoot_timer = cfg.player_cooldown;
                reg.projectiles.push(
                    Projectile { owner: Faction::Player, pos: pl.pos, speed: cfg.bullet_speed },
                );
            }
            reg.player = Some(pl);
        },
        None => {},
    }
    proof {
        assert(reg.projectiles@ =~= projs0 + player_volley(*cfg, *old(reg), *input, dt));
    }
    let ghost pvol = player_volley(*cfg, *old(reg), *input, dt);
    let ghost player1 = reg.player;
    let ghost score0 = reg.score;
    let ghost wave0 = reg.wave;
    let ghost state0 = reg.state;
    let ghost id0 = reg.next_id;
    let ghost mut fires = Seq::<bool>::empty();

    let mut i: usize = 0;
    while i < reg.aliens.len()
        invariant
            cfg.valid(),
            dt <= DT_LIMIT,
            reg.aliens@.len() == aliens0.len(),
            forall|k: int| 0 <= k < aliens0.len() ==> (#[trigger] aliens0[k]).wf(),
            0 <= i <= aliens0.len(),
            fires.len() == i as int,
            forall|k: int|
                0 <= k < i as int ==> ((#[trigger] fires[k]) ==> aliens0[k].alive
                    && sat_sub_spec(aliens0[k].shoot_timer as int, dt as int) == 0),
            cfg.shoot_chance_pct == 100 ==> forall|k: int|
                0 <= k < i as int && (#[trigger] aliens0[k]).alive && sat_sub_spec(
                    aliens0[k].shoot_timer as int,
                    dt as int,
                ) == 0 ==> fires[k],
            cfg.shoot_chance_pct == 0 ==> forall|k: int|
                0 <= k < i as int ==> !(#[trigger] fires[k]),
            forall|k: int| i as int <= k < aliens0.len() ==> #[trigger] reg.aliens@[k] == aliens0[k],
            forall|k: int|
                0 <= k < i as int
                    ==> #[trigger] reg.aliens@[k] == if aliens0[k].alive {
                        cooldown_stepped(*cfg, aliens0[k], fires[k], dt)
                    } else {
                        aliens0[k]
                    },
            forall|k: int| 0 <= k < i as int ==> (#[trigger] reg.aliens@[k]).wf(),
            reg.projectiles@ == projs0 + pvol + alien_volley(
                *cfg,
                aliens0.take(i as int),
                fires,
            ),
            forall|j: int|
                projs0.len() <= j < reg.projectiles@.len()
                    ==> (#[trigger] reg.projectiles@[j]).wf(),
            forall|j: int| 0 <= j < projs0.len() ==> (#[trigger] projs0[j]).wf(),
            reg.player == player1,
            reg.score == score0,
            reg.wave == wave0,
            reg.state == state0,
            reg.next_id == id0,
        decreases aliens0.len() - i,
    {
        let ghost fires_pre = fires;
        let mut fired: bool = false;
        let mut a = reg.aliens[i];
        if a.alive {
            let t = sat_sub64(a.shoot_timer, dt);
            a.shoot_timer = t;
            if t == 0 {
                let roll = rand_between(0, 99);
                if (roll as u64) < cfg.shoot_chance_pct {
                    fired = true;
                    a.shoot_timer = cfg.alien_cooldown;
                    reg.projectiles.push(
                        Projectile {
                            owner: Faction::Alien,
                            pos: a.pos,
                            speed: cfg.alien_projectile_speed,
                        },
                    );
                }
            }
            reg.aliens.set(i, a);
        }
        proof {
            fires = fires.push(fired);
            assert(aliens0.take(i as int + 1) =~= aliens0.take(i as int).push(
                aliens0[i as int],
            ));
            lemma_volley_push(*cfg, aliens0.take(i as int), aliens0[i as int], fires_pre, fired);
            if fired {
                assert(reg.projectiles@ =~= (projs0 + pvol + alien_volley(
                    *cfg,
                    aliens0.take(i as int),
                    fires_pre,
                )).push(alien_shot(*cfg, aliens0[i as int])));
                assert((projs0 + pvol + alien_volley(*cfg, aliens0.take(i as int), fires_pre))
                    .push(alien_shot(*cfg, aliens0[i as int])) =~= projs0 + pvol + alien_volley(
                    *cfg,
                    aliens0.take(i as int),
                    fires_pre,
                ).push(alien_shot(*cfg, aliens0[i as int])));
            }
        }
        i = i + 1;
    }
    proof {
        reveal(shot_stepped);
        assert(aliens0.take(aliens0.len() as int) =~= aliens0);
        assert(fire_mask_ok(*cfg, aliens0, fires, dt));
    }
}

} // verus!
