use passive::constants::ENEMY_BUFFER;
use passive::constants::ENEMY_SPAWN_FREQ;
use passive::constants::GATE_SPAWN_FREQ;
use passive::constants::SCALE;
use passive::constants::SPIN_SPEED;
use passive::constants::TURN;
use passive::game::Game;
use passive::game_object::Gate;

fn dist2(a: (i64, i64), b: (i64, i64)) -> i128 {
    let dx = (a.0 - b.0) as i128;
    let dy = (a.1 - b.1) as i128;
    dx * dx + dy * dy
}

/// Which of the four corner bands holds the point, if any.
fn band_of(p: (i64, i64)) -> Option<u8> {
    let lo = -SCALE;
    let hi = SCALE;
    let w = 2 * ENEMY_BUFFER;
    let in_high = |v: i64| hi - w <= v && v < hi;
    let in_low = |v: i64| lo <= v && v < lo + w;
    match (in_high(p.0), in_low(p.0), in_high(p.1), in_low(p.1)) {
        (true, _, true, _) => Some(1),
        (_, true, true, _) => Some(2),
        (_, true, _, true) => Some(3),
        (true, _, _, true) => Some(4),
        _ => None,
    }
}

#[test]
fn fresh_game_is_running_and_empty() {
    let game = Game::new(SCALE);
    assert!(!game.is_paused());
    assert_eq!(game.timer(), 0);
    assert_eq!(game.last_enemy_time(), 0);
    assert_eq!(game.last_gate_time(), 0);
    assert_eq!(game.enemies_per_wave(), 1);
    assert_eq!(game.aspect_ratio(), SCALE);
    assert_eq!(game.player.game_object.coords, (0, 0));
    assert!(game.enemies.is_empty());
    assert!(game.gates.is_empty());
}

#[test]
fn constructors_place_entities_exactly() {
    let player = passive::game_object::Player::new();
    assert_eq!(player.game_object.coords, (0, 0));
    let enemy = passive::game_object::Enemy::new((123, -456));
    assert_eq!(enemy.game_object.coords, (123, -456));
    let gate = Gate::new((7, 8));
    assert_eq!(gate.game_object.coords, (7, 8));
    assert_eq!(gate.rotation, 0);
    assert_eq!(gate.spin_speed, SPIN_SPEED);
    let keys = passive::game::KeySet::new();
    assert!(!keys.up && !keys.down && !keys.left && !keys.right);
}

#[test]
fn toggle_pause_flips_both_ways() {
    let mut game = Game::new(SCALE);
    game.toggle_pause();
    assert!(game.is_paused());
    game.toggle_pause();
    assert!(!game.is_paused());
}

#[test]
fn paused_game_ignores_ticks() {
    let mut game = Game::new(SCALE);
    game.keys.right = true;
    game.toggle_pause();
    game.update(1000);
    assert_eq!(game.player.game_object.coords, (0, 0));
    assert_eq!(game.timer(), 0);
    assert!(game.enemies.is_empty());
}

#[test]
fn player_moves_by_speed_along_axis() {
    let mut game = Game::new(SCALE);
    game.keys.right = true;
    game.update(100);
    // One tick moves PLAYER_SPEED * SCALE / (SCALE + 1) = 589 steps.
    assert_eq!(game.player.game_object.coords, (589, 0));
    game.keys.right = false;
    game.keys.down = true;
    game.update(100);
    assert_eq!(game.player.game_object.coords, (589, -589));
}

#[test]
fn diagonal_movement_is_not_faster() {
    let mut game = Game::new(SCALE);
    game.keys.right = true;
    game.keys.up = true;
    game.update(100);
    // 590 / sqrt(2) truncates to 417 on each axis.
    assert_eq!(game.player.game_object.coords, (417, 417));
}

#[test]
fn opposed_keys_cancel() {
    let mut game = Game::new(SCALE);
    game.keys.left = true;
    game.keys.right = true;
    game.update(100);
    assert_eq!(game.player.game_object.coords, (0, 0));
}

#[test]
fn enemy_pursues_stationary_player() {
    let mut game = Game::new(SCALE);
    game.enemies.push(passive::game_object::Enemy::new((32768, 0)));
    game.update(1);
    // Direction (-32768, 0): ENEMY_SPEED * 32768 / 32769 = 382 steps.
    assert_eq!(game.enemies[0].game_object.coords, (32768 - 382, 0));
}

#[test]
fn waves_grow_by_one_and_total_is_triangular() {
    let mut game = Game::new(SCALE);
    // Gates spawn in [0, 1)^2 as time passes; park the player in the
    // opposite corner so no random gate can pause the run.
    game.player.game_object.coords = (-32768, -32768);
    let dt = ENEMY_SPAWN_FREQ + 1;
    let mut expected_total = 0u64;
    for n in 1..=6u64 {
        game.update(dt);
        expected_total += n;
        assert_eq!(game.enemies.len() as u64, expected_total);
        assert_eq!(game.enemies_per_wave() as u64, n + 1);
    }
}

#[test]
fn spawned_enemies_sit_in_exactly_one_corner_band() {
    let mut game = Game::new(SCALE);
    game.player.game_object.coords = (-32768, -32768);
    for _ in 0..8 {
        let before = game.enemies.len();
        game.update(ENEMY_SPAWN_FREQ + 1);
        // Each wave is checked right at its spawn, before pursuit moves it.
        assert!(game.enemies.len() > before);
        for enemy in &game.enemies[before..] {
            let p = enemy.game_object.coords;
            let band = band_of(p);
            assert!(band.is_some(), "enemy at {:?} in no corner band", p);
        }
    }
}

#[test]
fn whole_wave_shares_one_band() {
    let mut game = Game::new(SCALE);
    game.player.game_object.coords = (-32768, -32768);
    game.update(ENEMY_SPAWN_FREQ + 1);
    let first_wave_end = game.enemies.len();
    game.update(ENEMY_SPAWN_FREQ + 1);
    // The second wave (two enemies) was drawn from a single band.
    let wave: Vec<_> = game.enemies[first_wave_end..].to_vec();
    assert_eq!(wave.len(), 2);
    let b0 = band_of(wave[0].game_object.coords);
    let b1 = band_of(wave[1].game_object.coords);
    assert!(b0.is_some());
    assert_eq!(b0, b1);
}

#[test]
fn gate_spawns_in_upper_right_quadrant() {
    let mut game = Game::new(SCALE);
    game.update(GATE_SPAWN_FREQ + 1);
    assert_eq!(game.gates.len(), 1);
    let g = &game.gates[0];
    assert!(0 <= g.game_object.coords.0 && g.game_object.coords.0 < SCALE);
    assert!(0 <= g.game_object.coords.1 && g.game_object.coords.1 < SCALE);
    assert_eq!(g.rotation, 0);
    assert_eq!(g.spin_speed, SPIN_SPEED);
}

#[test]
fn both_spawners_can_fire_in_one_tick() {
    let mut game = Game::new(SCALE);
    game.update(GATE_SPAWN_FREQ + 1);
    assert_eq!(game.enemies.len(), 1);
    assert_eq!(game.gates.len(), 1);
}

#[test]
fn spawn_is_one_tick_late_never_early() {
    let mut game = Game::new(SCALE);
    // Strict comparison: reaching the threshold exactly does not spawn.
    game.update(ENEMY_SPAWN_FREQ);
    assert_eq!(game.enemies.len(), 0);
    game.update(1);
    assert_eq!(game.enemies.len(), 1);
}

#[test]
fn zero_tick_changes_nothing_when_settled() {
    let mut game = Game::new(SCALE);
    game.update(1000);
    let player = game.player.game_object.coords;
    let timer = game.timer();
    for _ in 0..3 {
        game.update(0);
        assert_eq!(game.player.game_object.coords, player);
        assert_eq!(game.timer(), timer);
        assert!(!game.is_paused());
        assert!(game.enemies.is_empty());
        assert!(game.gates.is_empty());
    }
}

#[test]
fn spawn_fires_once_per_threshold_crossing() {
    let mut game = Game::new(SCALE);
    game.update(ENEMY_SPAWN_FREQ + 1);
    assert_eq!(game.enemies.len(), 1);
    // The crossing has been consumed: zero ticks spawn nothing more.
    for _ in 0..3 {
        game.update(0);
        assert_eq!(game.enemies.len(), 1);
        assert_eq!(game.enemies_per_wave(), 2);
    }
}

#[test]
fn gate_rotation_accumulates_and_wraps() {
    let mut game = Game::new(SCALE);
    game.gates.push(Gate::new((30000, 30000)));
    game.update(SCALE);
    // One second advances the rotation by SPIN_SPEED angle units.
    assert_eq!(game.gates[0].rotation, SPIN_SPEED);
    game.update(SCALE);
    assert_eq!(game.gates[0].rotation, 2 * SPIN_SPEED);
    game.update(2 * SCALE);
    assert_eq!(game.gates[0].rotation, 4 * SPIN_SPEED);
    // Three more seconds pass a full turn, and the rotation wraps.
    game.update(3 * SCALE);
    assert_eq!(game.gates[0].rotation, (7 * SPIN_SPEED) % TURN);
}

#[test]
fn gate_at_player_pauses_within_one_tick() {
    // Gate triangle centered on the player: its nearest edge passes at
    // half of GATE_RADIUS (3277) from the center, touching the player
    // circle of radius 3277.
    let mut game = Game::new(SCALE);
    game.gates.push(Gate::new((0, 0)));
    assert!(!game.is_paused());
    game.update(1);
    assert!(game.is_paused());
}

#[test]
fn distant_gate_does_not_pause() {
    let mut game = Game::new(SCALE);
    game.gates.push(Gate::new((40000, 40000)));
    game.update(1);
    assert!(!game.is_paused());
}

#[test]
fn collision_pause_freezes_the_game() {
    let mut game = Game::new(SCALE);
    game.gates.push(Gate::new((0, 0)));
    game.update(1);
    assert!(game.is_paused());
    let timer = game.timer();
    game.update(500);
    assert!(game.is_paused());
    assert_eq!(game.timer(), timer);
    // Only the explicit toggle resumes.
    game.toggle_pause();
    assert!(!game.is_paused());
}

#[test]
fn pursuing_enemies_approach_monotonically_without_merging() {
    let mut game = Game::new(SCALE);
    game.enemies.push(passive::game_object::Enemy::new((32768, 0)));
    game.enemies.push(passive::game_object::Enemy::new((-32768, 0)));
    let player = game.player.game_object.coords;
    let mut d0 = dist2(game.enemies[0].game_object.coords, player);
    let mut d1 = dist2(game.enemies[1].game_object.coords, player);
    for _ in 0..20 {
        game.update(1);
        assert_eq!(game.player.game_object.coords, player);
        let n0 = dist2(game.enemies[0].game_object.coords, player);
        let n1 = dist2(game.enemies[1].game_object.coords, player);
        assert!(n0 < d0);
        assert!(n1 < d1);
        // Pure pursuit has no separation: the two may overlap, but they
        // stay distinct entries and mirror one another here.
        assert_eq!(
            game.enemies[0].game_object.coords.0,
            -game.enemies[1].game_object.coords.0,
        );
        d0 = n0;
        d1 = n1;
    }
}

#[test]
fn aspect_ratio_stretches_collision_reach() {
    // A gate east of the player that misses on a square viewport is
    // brought within reach when a wide viewport compresses X.
    let mut near_miss = Game::new(SCALE);
    near_miss.gates.push(Gate::new((10150, 0)));
    near_miss.update(1);
    assert!(!near_miss.is_paused());

    let mut wide = Game::new(2 * SCALE);
    wide.gates.push(Gate::new((10150, 0)));
    wide.update(1);
    assert!(wide.is_paused());
}
