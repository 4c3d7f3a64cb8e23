use passive::constants::ENEMY_SPEED;
use passive::constants::MAX_COORD;
use passive::constants::PLAYER_SPEED;
use passive::constants::SCALE;
use passive::fixed::clamp;
use passive::fixed::isqrt;
use passive::fixed::mul_div;
use passive::game::rescale;
use passive::game::step_pos;
use passive::trig::cos_fp;
use passive::trig::sin_fp;
use passive::constants::HALF_TURN;
use passive::constants::QUARTER_TURN;
use passive::constants::TURN;

#[test]
fn isqrt_exact_values() {
    assert_eq!(isqrt(0), 0);
    assert_eq!(isqrt(1), 1);
    assert_eq!(isqrt(2), 1);
    assert_eq!(isqrt(3), 1);
    assert_eq!(isqrt(4), 2);
    assert_eq!(isqrt(48), 6);
    assert_eq!(isqrt(49), 7);
    assert_eq!(isqrt(1 << 48), 1 << 24);
    assert_eq!(isqrt((1 << 48) - 1), (1 << 24) - 1);
}

#[test]
fn mul_div_truncates_toward_zero() {
    assert_eq!(mul_div(7, 3, 2), 10);
    assert_eq!(mul_div(-7, 3, 2), -10);
    assert_eq!(mul_div(1, 1, 3), 0);
    assert_eq!(mul_div(-1, 1, 3), 0);
    assert_eq!(mul_div(65536, 590, 65537), 589);
}

#[test]
fn clamp_saturates() {
    assert_eq!(clamp(5, -3, 3), 3);
    assert_eq!(clamp(-5, -3, 3), -3);
    assert_eq!(clamp(2, -3, 3), 2);
}

#[test]
fn rescale_unit_axis_is_almost_speed() {
    // |v| = SCALE, so the result is speed * SCALE / (SCALE + 1): one short
    // of the speed, the epsilon in the denominator showing through.
    assert_eq!(rescale((SCALE, 0), PLAYER_SPEED), (589, 0));
    assert_eq!(rescale((0, -SCALE), PLAYER_SPEED), (0, -589));
}

#[test]
fn rescale_diagonal_is_speed_over_root_two() {
    // |(S, S)| = S * sqrt(2): 590 / sqrt(2) is 417.19...
    assert_eq!(rescale((SCALE, SCALE), PLAYER_SPEED), (417, 417));
    assert_eq!(rescale((-SCALE, SCALE), PLAYER_SPEED), (-417, 417));
}

#[test]
fn rescale_zero_vector_stays_put() {
    assert_eq!(rescale((0, 0), PLAYER_SPEED), (0, 0));
    assert_eq!(rescale((0, 0), ENEMY_SPEED), (0, 0));
}

#[test]
fn step_pos_saturates_at_arena_edge() {
    assert_eq!(step_pos((MAX_COORD - 1, 0), (10, 0)), (MAX_COORD, 0));
    assert_eq!(step_pos((-MAX_COORD, 5), (-7, -1)), (-MAX_COORD, 4));
    assert_eq!(step_pos((100, 200), (-30, 40)), (70, 240));
}

#[test]
fn sine_exact_at_quarter_turns() {
    assert_eq!(sin_fp(0), 0);
    assert_eq!(sin_fp(QUARTER_TURN), SCALE);
    assert_eq!(sin_fp(HALF_TURN), 0);
    assert_eq!(sin_fp(HALF_TURN + QUARTER_TURN), -SCALE);
    assert_eq!(cos_fp(0), SCALE);
    assert_eq!(cos_fp(QUARTER_TURN), 0);
    assert_eq!(cos_fp(HALF_TURN), -SCALE);
}

#[test]
fn sine_is_periodic() {
    for a in [0, 1234, QUARTER_TURN, 55555] {
        assert_eq!(sin_fp(a + TURN), sin_fp(a));
        assert_eq!(sin_fp(a + 3 * TURN), sin_fp(a));
    }
}

#[test]
fn sine_is_antisymmetric() {
    // sin(TURN - a) == -sin(a): the parabola halves mirror exactly.
    for a in [1, 100, 12345, QUARTER_TURN, 40000] {
        assert_eq!(sin_fp(TURN - a), -sin_fp(a));
    }
}

#[test]
fn sine_stays_in_unit_range() {
    let mut a: i64 = 0;
    while a < 3 * TURN {
        let s = sin_fp(a);
        assert!(-SCALE <= s && s <= SCALE);
        a += 997;
    }
}
