use invaders_core::config::{BoundaryPolicy, Config, Resolution, WavePolicy};
use invaders_core::entities::{Alien, MovementPattern, Player};
use invaders_core::geom::Vec2i;
use invaders_core::input::{
    InputState, axis_from_keys, decode_gyro_word, neutral_input, normalize_tilt, tilt_fires,
};
use invaders_core::movement::{move_alien, move_player};
use invaders_core::spawn::place_alien;

fn test_config() -> Config {
    Config {
        res: Resolution { half_width: 400_000, half_height: 300_000, pixel_ratio: 2_000 },
        hit_radius: 24_000,
        contact_radius: 32_000,
        spacing: 24_000,
        player_speed: 200_000,
        bullet_speed: 400_000,
        alien_speed: 50_000,
        alien_projectile_speed: -200_000,
        descent_speed: 20_000,
        player_cooldown: 500,
        alien_cooldown: 2_000,
        shoot_chance_pct: 1,
        switch_interval: 3_000,
        spawn_interval: 5_000,
        base_count: 10,
        bonus_max: 5,
        cap: 40,
        max_place_attempts: 32,
        spawn_band_x: 320_000,
        spawn_y_lo: 60_000,
        spawn_y_hi: 240_000,
        vel_jitter: 30_000,
        boundary: BoundaryPolicy::KillOnExit,
        wave_policy: WavePolicy::EscalatingRespawn,
    }
}

fn alien_with(pattern: MovementPattern, x: i64, y: i64) -> Alien {
    Alien {
        id: 0,
        pos: Vec2i { x, y },
        original_pos: Vec2i { x, y },
        pattern,
        alive: true,
        shoot_timer: 1_000_000,
        switch_timer: 1_000_000,
    }
}

#[test]
fn linear_motion_is_exact() {
    let cfg = test_config();
    let mut a = alien_with(MovementPattern::Linear { vel: Vec2i { x: 10_000, y: -5_000 } }, 0, 0);
    move_alien(&cfg, &mut a, None, 1_000);
    assert_eq!(a.pos.x, 10_000);
    assert_eq!(a.pos.y, -5_000);
}

#[test]
fn zigzag_oscillates_and_descends() {
    let cfg = test_config();
    // A quarter period per second: after one second the wave crests.
    let p = MovementPattern::Zigzag { base_x: 0, amplitude: 10_000, freq: 1_000, phase: 0 };
    let mut a = alien_with(p, 0, 0);
    move_alien(&cfg, &mut a, None, 1_000);
    assert_eq!(a.pos.x, 10_000);
    assert_eq!(a.pos.y, -20_000);
}

#[test]
fn circle_orbits_a_drifting_center() {
    let cfg = test_config();
    let p = MovementPattern::Circle {
        center: Vec2i { x: 0, y: 0 },
        radius: 10_000,
        angular: 1_000,
        angle: 0,
    };
    let mut a = alien_with(p, 10_000, 0);
    move_alien(&cfg, &mut a, None, 1_000);
    // The center dropped 20 pixels; at a quarter turn the orbit sits at the
    // top of the circle.
    assert_eq!(a.pos.x, 0);
    assert_eq!(a.pos.y, -10_000);
}

#[test]
fn seek_pursues_the_player() {
    let cfg = test_config();
    let mut a = alien_with(MovementPattern::Seek { speed: 50_000 }, 0, -90_000);
    let target = Vec2i { x: 0, y: -290_000 };
    move_alien(&cfg, &mut a, Some(target), 1_000);
    // Straight down at 50 pixels per second.
    assert_eq!(a.pos.x, 0);
    assert_eq!(a.pos.y, -140_000);
}

#[test]
fn seek_without_player_stands_still() {
    let cfg = test_config();
    let mut a = alien_with(MovementPattern::Seek { speed: 50_000 }, 7_000, -9_000);
    move_alien(&cfg, &mut a, None, 1_000);
    assert_eq!(a.pos.x, 7_000);
    assert_eq!(a.pos.y, -9_000);
}

#[test]
fn bounce_flips_and_steps_down() {
    let mut cfg = test_config();
    cfg.boundary = BoundaryPolicy::Bounce;
    let p = MovementPattern::Linear { vel: Vec2i { x: 400_000, y: 0 } };
    let mut a = alien_with(p, 390_000, 0);
    move_alien(&cfg, &mut a, None, 1_000);
    assert!(a.alive);
    assert_eq!(a.pos.x, 400_000);
    assert_eq!(a.pos.y, -24_000);
    match a.pattern {
        MovementPattern::Linear { vel } => assert_eq!(vel.x, -400_000),
        _ => panic!("pattern changed variant"),
    }
}

#[test]
fn pattern_switch_rerolls_on_expiry() {
    let cfg = test_config();
    let p = MovementPattern::Linear { vel: Vec2i { x: 0, y: 0 } };
    let mut a = alien_with(p, 0, 0);
    a.switch_timer = 400;
    move_alien(&cfg, &mut a, None, 1_000);
    assert_eq!(a.switch_timer, cfg.switch_interval);
    let mut b = alien_with(MovementPattern::Linear { vel: Vec2i { x: 0, y: 0 } }, 0, 0);
    b.switch_timer = 5_000;
    move_alien(&cfg, &mut b, None, 1_000);
    assert_eq!(b.switch_timer, 4_000);
    assert!(matches!(b.pattern, MovementPattern::Linear { .. }));
}

#[test]
fn player_clamps_at_the_edge() {
    let cfg = test_config();
    let mut pl = Player { pos: Vec2i { x: 350_000, y: -290_000 }, shoot_timer: 0 };
    let right = InputState {
        horizontal_movement: 1_000,
        shoot_requested: false,
        shoot_button_pressed: false,
    };
    move_player(&cfg, &mut pl, &right, 1_000);
    assert_eq!(pl.pos.x, 400_000);
    move_player(&cfg, &mut pl, &right, 1_000);
    assert_eq!(pl.pos.x, 400_000);
    assert_eq!(pl.pos.y, -290_000);
}

#[test]
fn player_axis_uses_direction_only() {
    let cfg = test_config();
    let mut pl = Player { pos: Vec2i { x: 0, y: -290_000 }, shoot_timer: 0 };
    let soft_left = InputState {
        horizontal_movement: -250,
        shoot_requested: false,
        shoot_button_pressed: false,
    };
    move_player(&cfg, &mut pl, &soft_left, 500);
    // Any leftward tilt moves at full speed: 100 pixels in half a second.
    assert_eq!(pl.pos.x, -100_000);
}

#[test]
fn gyro_word_decoding() {
    assert_eq!(decode_gyro_word(0x12, 0x34), 0x1234);
    assert_eq!(decode_gyro_word(0xFF, 0xFF), -1);
    assert_eq!(decode_gyro_word(0x80, 0x00), i16::MIN);
    assert_eq!(decode_gyro_word(0x00, 0x00), 0);
}

#[test]
fn tilt_normalization_clamps() {
    assert_eq!(normalize_tilt(11_790), 1_000);
    assert_eq!(normalize_tilt(-11_790), -1_000);
    assert_eq!(normalize_tilt(0), 0);
    assert_eq!(normalize_tilt(i16::MAX), 1_000);
    assert_eq!(normalize_tilt(i16::MIN), -1_000);
    // Half deflection lands mid-axis.
    assert_eq!(normalize_tilt(5_895), 500);
}

#[test]
fn tilt_trigger_threshold() {
    assert!(tilt_fires(1_966));
    assert!(!tilt_fires(1_965));
    assert!(!tilt_fires(-5_000));
}

#[test]
fn keyboard_axis_combines_keys() {
    assert_eq!(axis_from_keys(false, false), 0);
    assert_eq!(axis_from_keys(true, false), -1_000);
    assert_eq!(axis_from_keys(false, true), 1_000);
    assert_eq!(axis_from_keys(true, true), 0);
}

#[test]
fn neutral_input_is_inert() {
    let s = neutral_input();
    assert_eq!(s.horizontal_movement, 0);
    assert!(!s.shoot_requested);
    assert!(!s.shoot_button_pressed);
}

#[test]
fn placement_stays_in_the_band() {
    let cfg = test_config();
    let aliens: Vec<Alien> = Vec::new();
    for _ in 0..32 {
        let p = place_alien(&cfg, &aliens);
        assert!(p.x >= -320_000 && p.x <= 320_000);
        assert!(p.y >= 60_000 && p.y <= 240_000);
    }
}
