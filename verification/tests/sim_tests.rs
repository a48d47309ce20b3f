use invaders_core::config::{BoundaryPolicy, Config, Resolution, WavePolicy};
use invaders_core::entities::{Alien, Faction, MovementPattern, Player, Projectile};
use invaders_core::geom::Vec2i;
use invaders_core::input::InputState;
use invaders_core::registry::{AlienManager, GameState, Registry, Score};
use invaders_core::state::escalating_respawn;
use invaders_core::{new_session, tick};

/// The reference setup: an 800x600 play area (1000 units per pixel), the
/// classic speeds, and an escalating wave policy.
fn test_config() -> Config {
    Config {
        res: Resolution { half_width: 400_000, half_height: 300_000, pixel_ratio: 2_000 },
        hit_radius: 24_000,
        contact_radius: 32_000,
        spacing: 24_000,
        player_speed: 200_000,
        bullet_speed: 400_000,
        alien_speed: 50_000,
        alien_projectile_speed: -200_000,
        descent_speed: 20_000,
        player_cooldown: 500,
        alien_cooldown: 2_000,
        shoot_chance_pct: 1,
        switch_interval: 3_000,
        spawn_interval: 5_000,
        base_count: 10,
        bonus_max: 5,
        cap: 40,
        max_place_attempts: 32,
        spawn_band_x: 320_000,
        spawn_y_lo: 60_000,
        spawn_y_hi: 240_000,
        vel_jitter: 30_000,
        boundary: BoundaryPolicy::KillOnExit,
        wave_policy: WavePolicy::EscalatingRespawn,
    }
}

fn still_alien(id: u64, x: i64, y: i64) -> Alien {
    Alien {
        id,
        pos: Vec2i { x, y },
        original_pos: Vec2i { x, y },
        pattern: MovementPattern::Linear { vel: Vec2i { x: 0, y: 0 } },
        alive: true,
        shoot_timer: 1_000_000,
        switch_timer: 1_000_000,
    }
}

fn quiet_input() -> InputState {
    InputState { horizontal_movement: 0, shoot_requested: false, shoot_button_pressed: false }
}

/// A hand-built registry: the given aliens, projectiles, a player at the
/// start mark, score zero, Playing, with long timers so nothing fires on
/// its own.
fn arena(cfg: &Config, aliens: Vec<Alien>, projectiles: Vec<Projectile>) -> Registry {
    let alive = aliens.iter().filter(|a| a.alive).count();
    let next_id = aliens.iter().map(|a| a.id + 1).max().unwrap_or(0);
    Registry {
        aliens,
        projectiles,
        player: Some(Player {
            pos: Vec2i { x: 0, y: -290_000 },
            shoot_timer: 0,
        }),
        score: Score { value: 0 },
        wave: AlienManager { alive_aliens: alive, spawn_timer: 1_000_000, clear_latch: false },
        state: GameState::Playing,
        next_id,
    }
}

#[test]
fn fresh_session_shape() {
    let cfg = test_config();
    let reg = new_session(&cfg);
    assert_eq!(reg.score.value, 0);
    assert_eq!(reg.aliens.len(), 10);
    assert_eq!(reg.wave.alive_aliens, 10);
    assert!(reg.aliens.iter().all(|a| a.alive));
    assert_eq!(reg.projectiles.len(), 0);
    assert_eq!(reg.state, GameState::Playing);
    let pl = reg.player.as_ref().unwrap();
    assert_eq!(pl.pos.x, 0);
    assert_eq!(pl.pos.y, -300_000 + 5 * 2_000);
    for a in reg.aliens.iter() {
        assert!(a.pos.x >= -320_000 && a.pos.x <= 320_000);
        assert!(a.pos.y >= 60_000 && a.pos.y <= 240_000);
    }
}

/// A wave of ten aliens in the 800x600 area; the player fires one shot
/// upward at 400 pixels per second toward an alien 200 pixels above; once
/// their distance drops under the 24-pixel hit radius the alien dies, the
/// score becomes 1 and the live count 9.
#[test]
fn one_shot_one_kill_scenario() {
    let cfg = test_config();
    let mut aliens = vec![still_alien(0, 0, -90_000)];
    for k in 1..10 {
        aliens.push(still_alien(k, -350_000 + (k as i64) * 70_000, 240_000));
    }
    let mut reg = arena(&cfg, aliens, Vec::new());

    // Fire once.
    let fire = InputState {
        horizontal_movement: 0,
        shoot_requested: true,
        shoot_button_pressed: true,
    };
    let report = tick(&cfg, &mut reg, &fire, false, 100);
    assert!(!report.player_hit);
    assert_eq!(reg.projectiles.len(), 1);
    assert_eq!(reg.projectiles[0].owner, Faction::Player);
    assert_eq!(reg.score.value, 0);

    // Let the shot fly: 40 pixels per 100 ms tick over a 200 pixel gap.
    let quiet = quiet_input();
    for _ in 0..4 {
        let r = tick(&cfg, &mut reg, &quiet, false, 100);
        assert_eq!(r.kills, 0);
    }
    assert_eq!(reg.score.value, 0);
    let r = tick(&cfg, &mut reg, &quiet, false, 100);
    assert_eq!(r.kills, 1);
    assert_eq!(reg.score.value, 1);
    assert_eq!(reg.wave.alive_aliens, 9);
    assert!(!reg.aliens[0].alive);
    assert_eq!(reg.projectiles.len(), 0);

    // The counter always matches the flags after a tick.
    let counted = reg.aliens.iter().filter(|a| a.alive).count();
    assert_eq!(reg.wave.alive_aliens, counted);
}

/// One projectile never kills two aliens, even with both in range.
#[test]
fn one_projectile_at_most_one_kill() {
    let cfg = test_config();
    let aliens = vec![
        still_alien(0, 0, 0),
        still_alien(1, 10_000, 0),
        still_alien(2, 350_000, 240_000),
    ];
    let shot = Projectile { owner: Faction::Player, pos: Vec2i { x: 0, y: -10_000 }, speed: 400_000 };
    let mut reg = arena(&cfg, aliens, vec![shot]);
    let r = tick(&cfg, &mut reg, &quiet_input(), false, 1);
    assert_eq!(r.kills, 1);
    assert_eq!(reg.score.value, 1);
    assert_eq!(reg.wave.alive_aliens, 2);
    assert!(!reg.aliens[0].alive);
    assert!(reg.aliens[1].alive);
    assert_eq!(reg.projectiles.len(), 0);
}

/// Two projectiles, two aliens: each shot is spent on its own kill.
#[test]
fn two_projectiles_two_kills() {
    let cfg = test_config();
    let aliens = vec![
        still_alien(0, -100_000, 0),
        still_alien(1, 100_000, 0),
        still_alien(2, 350_000, 240_000),
    ];
    let shots = vec![
        Projectile { owner: Faction::Player, pos: Vec2i { x: -100_000, y: -10_000 }, speed: 400_000 },
        Projectile { owner: Faction::Player, pos: Vec2i { x: 100_000, y: -10_000 }, speed: 400_000 },
    ];
    let mut reg = arena(&cfg, aliens, shots);
    let r = tick(&cfg, &mut reg, &quiet_input(), false, 1);
    assert_eq!(r.kills, 2);
    assert_eq!(reg.score.value, 2);
    assert_eq!(reg.wave.alive_aliens, 1);
}

/// Projectiles that leave the vertical bounds are removed within the tick.
#[test]
fn bounds_exit_despawns_within_tick() {
    let cfg = test_config();
    let aliens = vec![still_alien(0, 350_000, 240_000)];
    let shots = vec![
        Projectile { owner: Faction::Player, pos: Vec2i { x: -200_000, y: 290_000 }, speed: 400_000 },
        Projectile { owner: Faction::Alien, pos: Vec2i { x: 200_000, y: -290_000 }, speed: -200_000 },
    ];
    let mut reg = arena(&cfg, aliens, shots);
    let r = tick(&cfg, &mut reg, &quiet_input(), false, 1_000);
    assert!(!r.player_hit);
    assert_eq!(reg.projectiles.len(), 0);
    assert_eq!(reg.score.value, 0);
}

/// All ten aliens down under the escalating policy with a base of ten and a
/// bonus drawn from [1, 5]: the new live count is 10 + bonus.
#[test]
fn escalating_respawn_after_clear() {
    let cfg = test_config();
    let mut aliens: Vec<Alien> = (0..10)
        .map(|k| still_alien(k, -350_000 + (k as i64) * 70_000, 240_000))
        .collect();
    for a in aliens.iter_mut() {
        a.alive = false;
    }
    let mut reg = arena(&cfg, aliens, Vec::new());
    reg.wave.alive_aliens = 0;
    let r = tick(&cfg, &mut reg, &quiet_input(), false, 100);
    assert!(r.wave_completed);
    assert!(reg.wave.clear_latch);
    let alive = reg.wave.alive_aliens;
    assert!((11..=15).contains(&alive));
    assert_eq!(reg.aliens.len(), alive);
    assert!(reg.aliens.iter().all(|a| a.alive));
    assert_eq!(reg.score.value, 0);
}

/// The drawn-bonus formula, pinned with an explicit bonus.
#[test]
fn escalating_respawn_exact_count() {
    let cfg = test_config();
    let mut reg = arena(&cfg, Vec::new(), Vec::new());
    escalating_respawn(&cfg, &mut reg, 3);
    assert_eq!(reg.wave.alive_aliens, 13);
    assert_eq!(reg.aliens.len(), 13);
    assert!(reg.aliens.iter().all(|a| a.alive));
}

/// A zero count fires wave completion exactly once: held at zero, the next
/// tick does not fire it again.
#[test]
fn wave_completion_is_edge_triggered() {
    let mut cfg = test_config();
    cfg.wave_policy = WavePolicy::ResetInPlace;
    // An empty field stays at zero under reset-in-place.
    let mut reg = arena(&cfg, Vec::new(), Vec::new());
    let r1 = tick(&cfg, &mut reg, &quiet_input(), false, 100);
    assert!(r1.wave_completed);
    assert!(reg.wave.clear_latch);
    assert_eq!(reg.wave.alive_aliens, 0);
    let r2 = tick(&cfg, &mut reg, &quiet_input(), false, 100);
    assert!(!r2.wave_completed);
    let r3 = tick(&cfg, &mut reg, &quiet_input(), false, 100);
    assert!(!r3.wave_completed);
}

/// Reset-in-place revives every alien at its original position.
#[test]
fn reset_in_place_revives_at_origin() {
    let mut cfg = test_config();
    cfg.wave_policy = WavePolicy::ResetInPlace;
    let mut a = still_alien(0, 100_000, 200_000);
    a.pos = Vec2i { x: -50_000, y: 80_000 };
    a.alive = false;
    let mut reg = arena(&cfg, vec![a], Vec::new());
    reg.wave.alive_aliens = 0;
    let r = tick(&cfg, &mut reg, &quiet_input(), false, 100);
    assert!(r.wave_completed);
    assert_eq!(reg.wave.alive_aliens, 1);
    assert!(reg.aliens[0].alive);
    assert_eq!(reg.aliens[0].pos.x, 100_000);
    assert_eq!(reg.aliens[0].pos.y, 200_000);
}

/// GameOver is entered exactly on a player-hit event, persists while no
/// restart is requested, and restart rebuilds the canonical fresh session.
#[test]
fn game_over_and_restart() {
    let cfg = test_config();
    // An alien in direct contact with the player.
    let aliens = vec![still_alien(0, 10_000, -290_000), still_alien(1, 350_000, 240_000)];
    let mut reg = arena(&cfg, aliens, Vec::new());
    reg.score.value = 7;

    let r = tick(&cfg, &mut reg, &quiet_input(), false, 1);
    assert!(r.player_hit);
    assert_eq!(reg.state, GameState::GameOver);

    // Frozen while game over.
    let score_before = reg.score.value;
    let alien_count = reg.aliens.len();
    let r2 = tick(&cfg, &mut reg, &quiet_input(), false, 1_000);
    assert!(!r2.player_hit);
    assert_eq!(reg.state, GameState::GameOver);
    assert_eq!(reg.score.value, score_before);
    assert_eq!(reg.aliens.len(), alien_count);

    // Restart: clean score, the initial wave, no projectiles, player home.
    let r3 = tick(&cfg, &mut reg, &quiet_input(), true, 1_000);
    assert!(!r3.player_hit);
    assert_eq!(reg.state, GameState::Playing);
    assert_eq!(reg.score.value, 0);
    assert_eq!(reg.aliens.len(), 10);
    assert_eq!(reg.wave.alive_aliens, 10);
    assert!(reg.aliens.iter().all(|a| a.alive));
    assert_eq!(reg.projectiles.len(), 0);
    let pl = reg.player.as_ref().unwrap();
    assert_eq!(pl.pos.x, 0);
    assert_eq!(pl.pos.y, -290_000);
}

/// An alien projectile reaching the player is a hit and is despawned.
#[test]
fn alien_projectile_hits_player() {
    let cfg = test_config();
    let aliens = vec![still_alien(0, 350_000, 240_000)];
    let shot = Projectile {
        owner: Faction::Alien,
        pos: Vec2i { x: 0, y: -270_000 },
        speed: -200_000,
    };
    let mut reg = arena(&cfg, aliens, vec![shot]);
    // After 100 ms the shot is 20 pixels lower: right on the player.
    let r = tick(&cfg, &mut reg, &quiet_input(), false, 100);
    assert!(r.player_hit);
    assert_eq!(reg.state, GameState::GameOver);
}

/// An alien that leaves the play area under kill-on-exit dies that tick.
#[test]
fn kill_on_exit_reclaims_runaways() {
    let cfg = test_config();
    let mut runaway = still_alien(0, -390_000, 0);
    runaway.pattern = MovementPattern::Linear { vel: Vec2i { x: -400_000, y: 0 } };
    let aliens = vec![runaway, still_alien(1, 350_000, 240_000)];
    let mut reg = arena(&cfg, aliens, Vec::new());
    let r = tick(&cfg, &mut reg, &quiet_input(), false, 1_000);
    assert!(!r.player_hit);
    assert!(!reg.aliens[0].alive);
    assert_eq!(reg.wave.alive_aliens, 1);
    assert_eq!(reg.score.value, 0);
}

/// At a 100 percent chance gate, every alien with an expired cooldown
/// must fire.
#[test]
fn certain_gate_forces_alien_shot() {
    let mut cfg = test_config();
    cfg.shoot_chance_pct = 100;
    let mut gunner = still_alien(0, -200_000, 200_000);
    gunner.shoot_timer = 0;
    let mut reg = arena(&cfg, vec![gunner], Vec::new());
    let r = tick(&cfg, &mut reg, &quiet_input(), false, 1);
    assert!(!r.player_hit);
    assert_eq!(reg.projectiles.len(), 1);
    assert_eq!(reg.projectiles[0].owner, Faction::Alien);
    assert_eq!(reg.projectiles[0].speed, -200_000);
    assert_eq!(reg.aliens[0].shoot_timer, cfg.alien_cooldown);
}

/// An impossible chance gate forbids the shot, and the ready cooldown
/// simply holds at zero.
#[test]
fn impossible_gate_forbids_alien_shot() {
    let mut cfg = test_config();
    cfg.shoot_chance_pct = 0;
    let mut gunner = still_alien(0, -200_000, 200_000);
    gunner.shoot_timer = 0;
    let mut reg = arena(&cfg, vec![gunner], Vec::new());
    let r = tick(&cfg, &mut reg, &quiet_input(), false, 1_000);
    assert!(!r.player_hit);
    assert_eq!(reg.projectiles.len(), 0);
    assert_eq!(reg.aliens[0].shoot_timer, 0);
}

/// A tick without the player entity is a benign no-op for the player-bound
/// logic: nothing fires, nothing hits, the rest of the world moves on.
#[test]
fn missing_player_is_benign() {
    let cfg = test_config();
    let mut chaser = still_alien(0, 0, 100_000);
    chaser.pattern = MovementPattern::Seek { speed: 50_000 };
    let mut reg = arena(&cfg, vec![chaser, still_alien(1, 300_000, 240_000)], Vec::new());
    reg.player = None;
    let fire = InputState {
        horizontal_movement: 1_000,
        shoot_requested: true,
        shoot_button_pressed: true,
    };
    let r = tick(&cfg, &mut reg, &fire, false, 1_000);
    assert!(!r.player_hit);
    assert_eq!(r.kills, 0);
    assert_eq!(reg.state, GameState::Playing);
    assert!(reg.player.is_none());
    assert_eq!(reg.projectiles.len(), 0);
    // With no player to chase, the pursuer holds its position.
    assert_eq!(reg.aliens[0].pos.x, 0);
    assert_eq!(reg.aliens[0].pos.y, 100_000);
    assert_eq!(reg.wave.alive_aliens, 2);
}

/// The trickle spawner waits out its timer, then adds one alien.
#[test]
fn spawn_timer_trickles() {
    let cfg = test_config();
    let mut reg = arena(&cfg, vec![still_alien(0, 0, 200_000)], Vec::new());
    reg.wave.spawn_timer = 1_500;
    let _ = tick(&cfg, &mut reg, &quiet_input(), false, 1_000);
    assert_eq!(reg.aliens.len(), 1);
    let _ = tick(&cfg, &mut reg, &quiet_input(), false, 1_000);
    assert_eq!(reg.aliens.len(), 2);
    assert_eq!(reg.wave.alive_aliens, 2);
    assert_eq!(reg.wave.spawn_timer, cfg.spawn_interval);
}
