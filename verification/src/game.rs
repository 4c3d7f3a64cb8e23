//! The aggregate simulation state and its per-tick transition: player
//! movement from held keys, enemy pursuit, gate rotation, collision
//! against gate edges, the clock, and the two spawners.

use vstd::prelude::*;

use crate::collision::check_segment_collision;
use crate::collision::circle_segment_hit;
use crate::constants::ENEMY_BUFFER;
use crate::constants::ENEMY_SPAWN_FREQ;
use crate::constants::ENEMY_SPEED;
use crate::constants::GATE_RADIUS;
use crate::constants::GATE_SPAWN_FREQ;
use crate::constants::MAX_ASPECT;
use crate::constants::MAX_COORD;
use crate::constants::MAX_DT;
use crate::constants::MAX_TIMER;
use crate::constants::MAX_WAVE;
use crate::constants::MIN_ASPECT;
use crate::constants::PLAYER_RADIUS;
use crate::constants::PLAYER_SPEED;
use crate::constants::SCALE;
use crate::constants::TURN;
use crate::fixed::clamp;
use crate::fixed::clamp_spec;
use crate::fixed::isqrt;
use crate::fixed::lemma_mul_div_magnitude;
use crate::fixed::lemma_sqrt_floor_unique;
use crate::fixed::mul_div;
use crate::fixed::mul_div_spec;
use crate::fixed::sqrt_floor;
use crate::game_object::pos_ok;
use crate::game_object::Enemy;
use crate::game_object::GameObject;
use crate::game_object::Gate;
use crate::game_object::Player;
use crate::rng::fresh_rng;
use crate::rng::rng_range;

verus! {

/// The currently held logical movement keys.
#[derive(Clone, Copy, PartialEq, Eq, Structural, Debug)]
pub struct KeySet {
    pub up: bool,
    pub down: bool,
    pub left: bool,
    pub right: bool,
}

impl KeySet {
    /// No key held.
    pub fn new() -> (keys: Self)
        ensures
            keys == (KeySet { up: false, down: false, left: false, right: false }),
    {
        KeySet { up: false, down: false, left: false, right: false }
    }
}

/// Horizontal input direction: right minus left, in `{-1, 0, 1}`.
pub open spec fn key_dir_x(keys: KeySet) -> int {
    (if keys.right { 1int } else { 0int }) - (if keys.left { 1int } else { 0int })
}

/// Vertical input direction: up minus down, in `{-1, 0, 1}`.
pub open spec fn key_dir_y(keys: KeySet) -> int {
    (if keys.up { 1int } else { 0int }) - (if keys.down { 1int } else { 0int })
}

/// One component of a direction vector rescaled to length `speed`: the
/// vector is divided by its magnitude plus one (the fixed-point stand-in
/// for the epsilon that keeps the zero vector safe) and scaled by `speed`,
/// truncating toward zero.
pub open spec fn rescale_x_spec(vx: int, vy: int, speed: int) -> int {
    mul_div_spec(vx, speed, sqrt_floor(vx * vx + vy * vy) + 1)
}

/// The other component of the rescaled direction vector.
pub open spec fn rescale_y_spec(vx: int, vy: int, speed: int) -> int {
    mul_div_spec(vy, speed, sqrt_floor(vx * vx + vy * vy) + 1)
}

/// A coordinate after one displacement, saturated at the arena bounds.
pub open spec fn step_coord(x: int, dx: int) -> int {
    clamp_spec(x + dx, -MAX_COORD as int, MAX_COORD as int)
}

/// The player's position after one tick of input.
pub open spec fn player_step_spec(px: int, py: int, keys: KeySet) -> (int, int) {
    let vx = key_dir_x(keys) * SCALE;
    let vy = key_dir_y(keys) * SCALE;
    (
        step_coord(px, rescale_x_spec(vx, vy, PLAYER_SPEED as int)),
        step_coord(py, rescale_y_spec(vx, vy, PLAYER_SPEED as int)),
    )
}

/// An enemy's position after one tick of pursuing the (already moved)
/// player.
pub open spec fn enemy_step_spec(ex: int, ey: int, px: int, py: int) -> (int, int) {
    let vx = px - ex;
    let vy = py - ey;
    (
        step_coord(ex, rescale_x_spec(vx, vy, ENEMY_SPEED as int)),
        step_coord(ey, rescale_y_spec(vx, vy, ENEMY_SPEED as int)),
    )
}

/// `sqrt_floor` is monotone.
proof fn lemma_sqrt_floor_monotone(m: int, n: int)
    requires
        0 <= m <= n,
    ensures
        sqrt_floor(m) <= sqrt_floor(n),
{
    crate::fixed::lemma_sqrt_floor_bounds(m);
    crate::fixed::lemma_sqrt_floor_bounds(n);
    let rm = sqrt_floor(m);
    let rn = sqrt_floor(n);
    if rn < rm {
        assert((rn + 1) * (rn + 1) <= rm * rm) by (nonlinear_arith)
            requires 0 <= rn, rn < rm;
    }
}

/// The square root of a perfect square.
proof fn lemma_sqrt_floor_square(x: int)
    requires
        0 <= x,
    ensures
        sqrt_floor(x * x) == x,
{
    assert(0 <= x * x && x * x < (x + 1) * (x + 1)) by (nonlinear_arith)
        requires 0 <= x;
    lemma_sqrt_floor_unique(x * x, x);
}

/// Each component of the rescaled vector is bounded by the speed.
proof fn lemma_rescale_bounded(vx: int, vy: int, speed: int)
    requires
        speed > 0,
        -0x1000000 <= vx <= 0x1000000,
        -0x1000000 <= vy <= 0x1000000,
    ensures
        -speed <= rescale_x_spec(vx, vy, speed) <= speed,
        -speed <= rescale_y_spec(vx, vy, speed) <= speed,
{
    let n = vx * vx + vy * vy;
    assert(vx * vx >= 0 && vy * vy >= 0) by (nonlinear_arith);
    let d = sqrt_floor(n) + 1;
    let ax = if vx >= 0 { vx } else { -vx };
    let ay = if vy >= 0 { vy } else { -vy };
    assert(ax * ax <= n && ay * ay <= n) by (nonlinear_arith)
        requires n == vx * vx + vy * vy, ax == (if vx >= 0 { vx } else { -vx }),
            ay == (if vy >= 0 { vy } else { -vy });
    lemma_sqrt_floor_square(ax);
    lemma_sqrt_floor_square(ay);
    lemma_sqrt_floor_monotone(ax * ax, n);
    lemma_sqrt_floor_monotone(ay * ay, n);
    // |vx| <= d, so |vx| * speed / d <= speed.
    lemma_mul_div_magnitude(vx, speed, d, d);
    lemma_mul_div_magnitude(vy, speed, d, d);
    vstd::arithmetic::div_mod::lemma_div_by_multiple(speed, d);
    assert(d * speed == speed * d) by (nonlinear_arith);
}

/// Rescales a direction vector to (at most) the given speed, exactly as
/// `rescale_x_spec` / `rescale_y_spec` describe.
pub fn rescale(v: (i64, i64), speed: i64) -> (r: (i64, i64))
    requires
        -0x1000000 <= v.0 <= 0x1000000,
        -0x1000000 <= v.1 <= 0x1000000,
        0 < speed <= 0x10000,
    ensures
        r.0 == rescale_x_spec(v.0 as int, v.1 as int, speed as int),
        r.1 == rescale_y_spec(v.0 as int, v.1 as int, speed as int),
        -speed <= r.0 <= speed,
        -speed <= r.1 <= speed,
{
    proof {
        assert(0 <= v.0 * v.0 <= 0x1000000000000 && 0 <= v.1 * v.1 <= 0x1000000000000)
            by (nonlinear_arith)
            requires -0x1000000 <= v.0 <= 0x1000000, -0x1000000 <= v.1 <= 0x1000000;
    }
    let n: i64 = v.0 * v.0 + v.1 * v.1;
    proof {
        crate::fixed::lemma_sqrt_floor_bounds(n as int);
        // sqrt_floor(n) stays below 2^25, so d fits comfortably.
        lemma_sqrt_floor_square(0x2000000int);
        lemma_sqrt_floor_monotone(n as int, 0x2000000int * 0x2000000int);
        lemma_rescale_bounded(v.0 as int, v.1 as int, speed as int);
    }
    let d: i64 = isqrt(n as u64) as i64 + 1;
    let rx = mul_div(v.0, speed, d);
    let ry = mul_div(v.1, speed, d);
    (rx, ry)
}

/// One saturated displacement step for a position.
pub fn step_pos(p: (i64, i64), d: (i64, i64)) -> (r: (i64, i64))
    requires
        -0x20000000 <= p.0 <= 0x20000000,
        -0x20000000 <= p.1 <= 0x20000000,
        -0x20000000 <= d.0 <= 0x20000000,
        -0x20000000 <= d.1 <= 0x20000000,
    ensures
        r.0 == step_coord(p.0 as int, d.0 as int),
        r.1 == step_coord(p.1 as int, d.1 as int),
        pos_ok(r),
{
    (clamp(p.0 + d.0, -MAX_COORD, MAX_COORD), clamp(p.1 + d.1, -MAX_COORD, MAX_COORD))
}

/// A gate's rotation after one tick: advanced by `dt * spin_speed`
/// seconds' worth of angle and reduced into `[0, TURN)`.
pub open spec fn gate_rot_spec(rot: int, spin: int, dt: int) -> int {
    (rot + mul_div_spec(dt, spin, SCALE as int)) % (TURN as int)
}

/// A whole gate after one tick: same position and spin, advanced rotation.
pub open spec fn gate_step_spec(g: Gate, dt: int) -> Gate {
    Gate {
        game_object: g.game_object,
        rotation: gate_rot_spec(g.rotation as int, g.spin_speed as int, dt) as i64,
        spin_speed: g.spin_speed,
    }
}

/// Every gate of a sequence after one tick.
pub open spec fn stepped_gates(gates: Seq<Gate>, dt: int) -> Seq<Gate> {
    gates.map_values(|g: Gate| gate_step_spec(g, dt))
}

/// Advances one gate's rotation.
fn rotate_gate(g: &Gate, dt: i64) -> (g2: Gate)
    requires
        g.wf(),
        0 <= dt <= MAX_DT,
    ensures
        g2 == gate_step_spec(*g, dt as int),
        g2.wf(),
{
    let adv: i64 = if g.spin_speed > 0 {
        proof {
            vstd::arithmetic::mul::lemma_mul_upper_bound(
                dt as int, MAX_DT as int, g.spin_speed as int, crate::constants::MAX_SPIN as int);
            vstd::arithmetic::mul::lemma_mul_nonnegative(dt as int, g.spin_speed as int);
            vstd::arithmetic::div_mod::lemma_div_nonincreasing(
                dt * g.spin_speed, SCALE as int);
            vstd::arithmetic::div_mod::lemma_div_pos_is_pos(
                dt * g.spin_speed, SCALE as int);
        }
        mul_div(dt, g.spin_speed, SCALE)
    } else {
        proof {
            vstd::arithmetic::div_mod::lemma_div_of0(SCALE as int);
            assert(g.spin_speed == 0);
            assert(dt * g.spin_speed == 0);
            assert(mul_div_spec(dt as int, g.spin_speed as int, SCALE as int) == 0);
        }
        0
    };
    let s: i64 = g.rotation + adv;
    let r: i64 = ((s as u64) % (TURN as u64)) as i64;
    proof {
        vstd::arithmetic::div_mod::lemma_mod_division_less_than_divisor(s as int, TURN as int);
        assert(adv == mul_div_spec(dt as int, g.spin_speed as int, SCALE as int));
    }
    Gate { game_object: g.game_object, rotation: r, spin_speed: g.spin_speed }
}

/// The simulation clock after one tick: advanced by `dt`, saturating at
/// `MAX_TIMER`.
pub open spec fn timer_step_spec(t: int, dt: int) -> int {
    if t + dt <= MAX_TIMER {
        t + dt
    } else {
        MAX_TIMER as int
    }
}

/// An X coordinate corrected for the viewport: divided by the aspect
/// ratio, so circles drawn undistorted on a non-square viewport collide
/// undistorted too.
pub open spec fn scale_x_spec(x: int, aspect: int) -> int {
    mul_div_spec(x, SCALE as int, aspect)
}

/// Executable aspect correction.
fn scale_x(x: i64, aspect: i64) -> (r: i64)
    requires
        -(MAX_COORD + GATE_RADIUS) <= x <= MAX_COORD + GATE_RADIUS,
        MIN_ASPECT <= aspect <= MAX_ASPECT,
    ensures
        r == scale_x_spec(x as int, aspect as int),
        -0x10000000 <= r <= 0x10000000,
{
    let r = mul_div(x, SCALE, aspect);
    proof {
        lemma_mul_div_magnitude(
            x as int, SCALE as int, aspect as int, (MAX_COORD + GATE_RADIUS) as int);
        vstd::arithmetic::div_mod::lemma_div_is_ordered_by_denominator(
            (MAX_COORD + GATE_RADIUS) * (SCALE as int), MIN_ASPECT as int, aspect as int);
    }
    r
}

/// Does edge `k` of a gate's triangle (from vertex `k` to the next one)
/// touch the player's circle, after both are corrected for the aspect
/// ratio?  A degenerate edge whose corrected endpoints coincide is guarded
/// away and never counts.
pub open spec fn edge_hits_spec(px: int, py: int, g: Gate, aspect: int, k: int) -> bool {
    let j = if k == 2 { 0int } else { k + 1 };
    let ax = scale_x_spec(g.vertex_x_spec(k), aspect);
    let ay = g.vertex_y_spec(k);
    let bx = scale_x_spec(g.vertex_x_spec(j), aspect);
    let by = g.vertex_y_spec(j);
    &&& (ax != bx || ay != by)
    &&& circle_segment_hit(
        scale_x_spec(px, aspect), py, PLAYER_RADIUS as int, ax, ay, bx, by)
}

/// Does any edge of this gate touch the player?
pub open spec fn gate_hits_spec(px: int, py: int, g: Gate, aspect: int) -> bool {
    exists|k: int| 0 <= k < 3 && edge_hits_spec(px, py, g, aspect, k)
}

/// Does any edge of any gate touch the player?
pub open spec fn any_gate_hits_spec(px: int, py: int, gates: Seq<Gate>, aspect: int) -> bool {
    exists|i: int| 0 <= i < gates.len() && gate_hits_spec(px, py, gates[i], aspect)
}

/// Executable test of one gate against the player.
fn gate_hits(player: (i64, i64), g: &Gate, aspect: i64) -> (hit: bool)
    requires
        pos_ok(player),
        g.wf(),
        MIN_ASPECT <= aspect <= MAX_ASPECT,
    ensures
        hit == gate_hits_spec(player.0 as int, player.1 as int, *g, aspect as int),
{
    let v0 = g.vertex(0);
    let v1 = g.vertex(1);
    let v2 = g.vertex(2);
    let a0 = (scale_x(v0.0, aspect), v0.1);
    let a1 = (scale_x(v1.0, aspect), v1.1);
    let a2 = (scale_x(v2.0, aspect), v2.1);
    let px = scale_x(player.0, aspect);
    let p = (px, player.1);
    let h0 = if a0.0 != a1.0 || a0.1 != a1.1 {
        check_segment_collision(p, a0, a1, PLAYER_RADIUS)
    } else {
        false
    };
    let h1 = if a1.0 != a2.0 || a1.1 != a2.1 {
        check_segment_collision(p, a1, a2, PLAYER_RADIUS)
    } else {
        false
    };
    let h2 = if a2.0 != a0.0 || a2.1 != a0.1 {
        check_segment_collision(p, a2, a0, PLAYER_RADIUS)
    } else {
        false
    };
    proof {
        let gpx = player.0 as int;
        let gpy = player.1 as int;
        let ga = aspect as int;
        assert(h0 == edge_hits_spec(gpx, gpy, *g, ga, 0));
        assert(h1 == edge_hits_spec(gpx, gpy, *g, ga, 1));
        assert(h2 == edge_hits_spec(gpx, gpy, *g, ga, 2));
        if !(h0 || h1 || h2) {
            assert forall|k: int| 0 <= k < 3 implies !edge_hits_spec(gpx, gpy, *g, ga, k) by {
            }
        }
    }
    h0 || h1 || h2
}

/// The half-open square band pulled in from screen corner `q` (1 to 4:
/// upper right, upper left, lower left, lower right), as
/// `(x_min, x_max, y_min, y_max)`.
pub open spec fn band_bounds(q: int) -> (int, int, int, int) {
    let s = SCALE as int;
    let b = 2 * ENEMY_BUFFER as int;
    if q == 1 {
        (s - b, s, s - b, s)
    } else if q == 2 {
        (-s, -s + b, s - b, s)
    } else if q == 3 {
        (-s, -s + b, -s, -s + b)
    } else {
        (s - b, s, -s, -s + b)
    }
}

/// The position lies in corner band `q`.
pub open spec fn in_band(q: int, x: int, y: int) -> bool {
    let bb = band_bounds(q);
    bb.0 <= x < bb.1 && bb.2 <= y < bb.3
}

/// The four corner bands are pairwise disjoint: a spawned enemy lies in
/// exactly the one band its wave was drawn from.
pub proof fn lemma_corner_bands_disjoint(q1: int, q2: int, x: int, y: int)
    requires
        1 <= q1 <= 4,
        1 <= q2 <= 4,
        q1 != q2,
        in_band(q1, x, y),
    ensures
        !in_band(q2, x, y),
{
}

/// Every enemy appended beyond `pre` lies in corner band `q`.
pub open spec fn wave_in_band(pre: Seq<Enemy>, post: Seq<Enemy>, q: int) -> bool {
    forall|i: int| pre.len() <= i < post.len()
        ==> in_band(
            q,
            (#[trigger] post[i]).game_object.coords.0 as int,
            post[i].game_object.coords.1 as int,
        )
}

/// The aggregate simulation state.
pub struct Game {
    /// Paused by toggle or by a gate collision; ticks do nothing while set.
    pub paused: bool,
    /// Elapsed simulation time, fixed-point seconds; never decreases.
    pub timer: i64,
    /// When the last enemy wave spawned.
    pub last_enemy_time: i64,
    /// When the last gate spawned.
    pub last_gate_time: i64,
    /// Currently held movement keys, pushed in by the input feed.
    pub keys: KeySet,
    /// Size of the next enemy wave; grows by one per wave.
    pub enemies_per_wave: u32,
    /// The player-controlled circle.
    pub player: Player,
    /// Every enemy spawned this session, in spawn order; none despawn.
    pub enemies: Vec<Enemy>,
    /// Every gate spawned this session, in spawn order; none despawn.
    pub gates: Vec<Gate>,
    /// Viewport width over height, fixed-point; set at construction.
    pub aspect_ratio: i64,
}

impl Game {
    /// Well-formedness: every entity inside the arena, clock and spawn
    /// bookkeeping consistent, wave size and aspect ratio in range.
    pub open spec fn wf(self) -> bool {
        &&& pos_ok(self.player.game_object.coords)
        &&& (forall|i: int| 0 <= i < self.enemies@.len() ==> (#[trigger] self.enemies@[i]).wf())
        &&& (forall|i: int| 0 <= i < self.gates@.len() ==> (#[trigger] self.gates@[i]).wf())
        &&& 0 <= self.timer <= MAX_TIMER
        &&& 0 <= self.last_enemy_time <= self.timer
        &&& 0 <= self.last_gate_time <= self.timer
        &&& 1 <= self.enemies_per_wave <= MAX_WAVE
        &&& MIN_ASPECT <= self.aspect_ratio <= MAX_ASPECT
    }

    /// A fresh game: running, clock at zero, player at the origin, no
    /// entities yet, first wave of size one pending.
    pub fn new(aspect_ratio: i64) -> (game: Self)
        requires
            MIN_ASPECT <= aspect_ratio <= MAX_ASPECT,
        ensures
            game.wf(),
            !game.is_paused_spec(),
            game.timer_spec() == 0,
            game.last_enemy_time_spec() == 0,
            game.last_gate_time_spec() == 0,
            game.keys == (KeySet { up: false, down: false, left: false, right: false }),
            game.enemies_per_wave_spec() == 1,
            game.player.game_object.coords == (0i64, 0i64),
            game.enemies@.len() == 0,
            game.gates@.len() == 0,
            game.aspect_ratio_spec() == aspect_ratio,
    {
        Self {
            paused: false,
            timer: 0,
            last_enemy_time: 0,
            last_gate_time: 0,
            keys: KeySet::new(),
            enemies_per_wave: 1,
            player: Player::new(),
            enemies: Vec::new(),
            gates: Vec::new(),
            aspect_ratio,
        }
    }

    /// The pause flag in specifications.
    pub open spec fn is_paused_spec(self) -> bool {
        self.paused
    }

    /// The clock in specifications.
    pub open spec fn timer_spec(self) -> int {
        self.timer as int
    }

    /// The enemy-spawn timestamp in specifications.
    pub open spec fn last_enemy_time_spec(self) -> int {
        self.last_enemy_time as int
    }

    /// Timestamp of the most recent gate spawn, in specifications.
    pub open spec fn last_gate_time_spec(self) -> int {
        self.last_gate_time as int
    }

    /// The pending wave size in specifications.
    pub open spec fn enemies_per_wave_spec(self) -> int {
        self.enemies_per_wave as int
    }

    /// The aspect ratio in specifications.
    pub open spec fn aspect_ratio_spec(self) -> int {
        self.aspect_ratio as int
    }

    /// Is the game paused (by toggle or by a gate collision)?
    pub fn is_paused(&self) -> (paused: bool)
        ensures
            paused == self.is_paused_spec(),
    {
        self.paused
    }

    /// Elapsed simulation time, in fixed-point seconds.
    pub fn timer(&self) -> (t: i64)
        ensures
            t == self.timer_spec(),
    {
        self.timer
    }

    /// When the last enemy wave spawned.
    pub fn last_enemy_time(&self) -> (t: i64)
        ensures
            t == self.last_enemy_time_spec(),
    {
        self.last_enemy_time
    }

    /// When the last gate spawned.
    pub fn last_gate_time(&self) -> (t: i64)
        ensures
            t == self.last_gate_time_spec(),
    {
        self.last_gate_time
    }

    /// Size of the next enemy wave.
    pub fn enemies_per_wave(&self) -> (n: u32)
        ensures
            n == self.enemies_per_wave_spec(),
    {
        self.enemies_per_wave
    }

    /// The viewport aspect ratio supplied at construction.
    pub fn aspect_ratio(&self) -> (a: i64)
        ensures
            a == self.aspect_ratio_spec(),
    {
        self.aspect_ratio
    }

    /// Flips between running and paused; the only way back from paused.
    pub fn toggle_pause(&mut self)
        ensures
            final(self).is_paused_spec() == !old(self).is_paused_spec(),
            final(self).keys == old(self).keys,
            final(self).player == old(self).player,
            final(self).enemies@ == old(self).enemies@,
            final(self).gates@ == old(self).gates@,
            final(self).timer_spec() == old(self).timer_spec(),
            final(self).last_enemy_time_spec() == old(self).last_enemy_time_spec(),
            final(self).last_gate_time_spec() == old(self).last_gate_time_spec(),
            final(self).enemies_per_wave_spec() == old(self).enemies_per_wave_spec(),
            final(self).aspect_ratio_spec() == old(self).aspect_ratio_spec(),
            old(self).wf() ==> final(self).wf(),
    {
        self.paused = !self.paused;
    }

    /// Spawns one wave of enemies: a uniformly random corner band, then
    /// `enemies_per_wave` positions drawn uniformly inside it; the wave
    /// counter grows by one (up to its machine cap) and the spawn clock
    /// resets.
    fn spawn_enemies(&mut self)
        requires
            old(self).wf(),
        ensures
            final(self).wf(),
            final(self).player == old(self).player,
            final(self).gates@ == old(self).gates@,
            final(self).keys == old(self).keys,
            final(self).is_paused_spec() == old(self).is_paused_spec(),
            final(self).timer_spec() == old(self).timer_spec(),
            final(self).aspect_ratio_spec() == old(self).aspect_ratio_spec(),
            final(self).last_gate_time_spec() == old(self).last_gate_time_spec(),
            final(self).last_enemy_time_spec() == old(self).timer_spec(),
            final(self).enemies_per_wave_spec()
                == if old(self).enemies_per_wave_spec() < MAX_WAVE {
                    old(self).enemies_per_wave_spec() + 1
                } else {
                    old(self).enemies_per_wave_spec()
                },
            final(self).enemies@.len()
                == old(self).enemies@.len() + old(self).enemies_per_wave_spec(),
            forall|i: int| 0 <= i < old(self).enemies@.len()
                ==> final(self).enemies@[i] == old(self).enemies@[i],
            exists|q: int| 1 <= q <= 4
                && wave_in_band(old(self).enemies@, final(self).enemies@, q),
    {
        let mut rng = fresh_rng();
        let q = rng_range(&mut rng, 1, 5);
        let x_min: i64;
        let x_max: i64;
        let y_min: i64;
        let y_max: i64;
        if q == 1 {
            x_min = SCALE - 2 * ENEMY_BUFFER;
            x_max = SCALE;
            y_min = SCALE - 2 * ENEMY_BUFFER;
            y_max = SCALE;
        } else if q == 2 {
            x_min = -SCALE;
            x_max = -SCALE + 2 * ENEMY_BUFFER;
            y_min = SCALE - 2 * ENEMY_BUFFER;
            y_max = SCALE;
        } else if q == 3 {
            x_min = -SCALE;
            x_max = -SCALE + 2 * ENEMY_BUFFER;
            y_min = -SCALE;
            y_max = -SCALE + 2 * ENEMY_BUFFER;
        } else {
            x_min = SCALE - 2 * ENEMY_BUFFER;
            x_max = SCALE;
            y_min = -SCALE;
            y_max = -SCALE + 2 * ENEMY_BUFFER;
        }
        proof {
            assert(band_bounds(q as int)
                == (x_min as int, x_max as int, y_min as int, y_max as int));
        }
        let wave = self.enemies_per_wave;
        let ghost pre = self.enemies@;
        let ghost orig = *self;
        let mut i: u32 = 0;
        while i < wave
            invariant
                i <= wave,
                orig.wf(),
                wave == orig.enemies_per_wave,
                1 <= q < 5,
                band_bounds(q as int) == (x_min as int, x_max as int, y_min as int, y_max as int),
                -SCALE <= x_min < x_max <= SCALE,
                -SCALE <= y_min < y_max <= SCALE,
                pre == orig.enemies@,
                self.enemies@.len() == pre.len() + i,
                forall|j: int| 0 <= j < pre.len() ==> self.enemies@[j] == pre[j],
                forall|j: int| pre.len() <= j < self.enemies@.len()
                    ==> in_band(
                        q as int,
                        (#[trigger] self.enemies@[j]).game_object.coords.0 as int,
                        self.enemies@[j].game_object.coords.1 as int,
                    ),
                forall|j: int| 0 <= j < self.enemies@.len()
                    ==> (#[trigger] self.enemies@[j]).wf(),
                self.player == orig.player,
                self.gates@ == orig.gates@,
                self.keys == orig.keys,
                self.paused == orig.paused,
                self.timer == orig.timer,
                self.last_enemy_time == orig.last_enemy_time,
                self.last_gate_time == orig.last_gate_time,
                self.enemies_per_wave == orig.enemies_per_wave,
                self.aspect_ratio == orig.aspect_ratio,
            decreases wave - i,
        {
            let x = rng_range(&mut rng, x_min, x_max);
            let y = rng_range(&mut rng, y_min, y_max);
            self.enemies.push(Enemy::new((x, y)));
            i = i + 1;
        }
        if self.enemies_per_wave < MAX_WAVE {
            self.enemies_per_wave = self.enemies_per_wave + 1;
        }
        self.last_enemy_time = self.timer;
        proof {
            assert(wave_in_band(pre, self.enemies@, q as int));
        }
    }

    /// Spawns one gate at a uniformly random position in the upper-right
    /// quadrant (asymmetric by construction) and resets the spawn clock.
    fn spawn_gate(&mut self)
        requires
            old(self).wf(),
        ensures
            final(self).wf(),
            final(self).player == old(self).player,
            final(self).enemies@ == old(self).enemies@,
            final(self).keys == old(self).keys,
            final(self).is_paused_spec() == old(self).is_paused_spec(),
            final(self).timer_spec() == old(self).timer_spec(),
            final(self).aspect_ratio_spec() == old(self).aspect_ratio_spec(),
            final(self).last_enemy_time_spec() == old(self).last_enemy_time_spec(),
            final(self).enemies_per_wave_spec() == old(self).enemies_per_wave_spec(),
            final(self).last_gate_time_spec() == old(self).timer_spec(),
            final(self).gates@.len() == old(self).gates@.len() + 1,
            forall|i: int| 0 <= i < old(self).gates@.len()
                ==> final(self).gates@[i] == old(self).gates@[i],
            ({
                let fresh = final(self).gates@[old(self).gates@.len() as int];
                &&& 0 <= fresh.game_object.coords.0 < SCALE
                &&& 0 <= fresh.game_object.coords.1 < SCALE
                &&& fresh.rotation == 0
                &&& fresh.spin_speed == crate::constants::SPIN_SPEED
            }),
    {
        let mut rng = fresh_rng();
        let x = rng_range(&mut rng, 0, SCALE);
        let y = rng_range(&mut rng, 0, SCALE);
        self.gates.push(Gate::new((x, y)));
        self.last_gate_time = self.timer;
    }
}

/// No movement key is held.
pub open spec fn no_keys(k: KeySet) -> bool {
    !k.up && !k.down && !k.left && !k.right
}

/// Nothing observable differs between the two states.
pub open spec fn game_unchanged(pre: Game, post: Game) -> bool {
    &&& post.player == pre.player
    &&& post.keys == pre.keys
    &&& post.enemies@ == pre.enemies@
    &&& post.gates@ == pre.gates@
    &&& post.paused == pre.paused
    &&& post.timer == pre.timer
    &&& post.last_enemy_time == pre.last_enemy_time
    &&& post.last_gate_time == pre.last_gate_time
    &&& post.enemies_per_wave == pre.enemies_per_wave
    &&& post.aspect_ratio == pre.aspect_ratio
}

/// Every enemy of `pre` stands in `post` at the same index, moved one
/// pursuit step toward the player at `(px, py)`.
pub open spec fn enemies_stepped(pre: Seq<Enemy>, post: Seq<Enemy>, px: int, py: int) -> bool {
    &&& pre.len() <= post.len()
    &&& forall|i: int| 0 <= i < pre.len() ==> ({
        let e2 = enemy_step_spec(
            pre[i].game_object.coords.0 as int,
            pre[i].game_object.coords.1 as int,
            px,
            py,
        );
        (#[trigger] post[i]).game_object.coords.0 == e2.0
            && post[i].game_object.coords.1 == e2.1
    })
}

/// Every gate of `pre` stands in `post` at the same index, rotated one
/// tick.
pub open spec fn gates_stepped(pre: Seq<Gate>, post: Seq<Gate>, dt: int) -> bool {
    &&& pre.len() <= post.len()
    &&& forall|i: int| 0 <= i < pre.len()
        ==> (#[trigger] post[i]) == gate_step_spec(pre[i], dt)
}

/// An enemy wave is due this tick: the advanced clock lies strictly past
/// the last spawn plus the frequency (so a wave is exactly one tick late,
/// never early).
pub open spec fn enemy_wave_due(g: Game, dt: int) -> bool {
    timer_step_spec(g.timer as int, dt) > g.last_enemy_time + ENEMY_SPAWN_FREQ
}

/// A gate is due this tick.
pub open spec fn gate_due(g: Game, dt: int) -> bool {
    timer_step_spec(g.timer as int, dt) > g.last_gate_time + GATE_SPAWN_FREQ
}

/// The deterministic consequences of one running tick, before the clock
/// and the spawners: the player moved, every enemy stepped, every gate
/// rotated, and the pause flag set exactly when a gate edge touches the
/// moved player.
pub open spec fn motion_done(pre: Game, post: Game, dt: int) -> bool {
    let p2 = player_step_spec(
        pre.player.game_object.coords.0 as int,
        pre.player.game_object.coords.1 as int,
        pre.keys,
    );
    &&& post.player.game_object.coords.0 == p2.0
    &&& post.player.game_object.coords.1 == p2.1
    &&& post.enemies@.len() == pre.enemies@.len()
    &&& enemies_stepped(pre.enemies@, post.enemies@, p2.0, p2.1)
    &&& post.gates@.len() == pre.gates@.len()
    &&& gates_stepped(pre.gates@, post.gates@, dt)
    &&& post.paused == any_gate_hits_spec(
        p2.0,
        p2.1,
        stepped_gates(pre.gates@, dt),
        pre.aspect_ratio as int,
    )
}

impl Game {
    /// Runs steps one to four of a tick: player movement, enemy pursuit,
    /// gate rotation, and the collision check that may pause the game.
    fn tick_entities(&mut self, dt: i64)
        requires
            old(self).wf(),
            !old(self).paused,
            0 <= dt <= MAX_DT,
        ensures
            final(self).wf(),
            motion_done(*old(self), *final(self), dt as int),
            final(self).keys == old(self).keys,
            final(self).timer == old(self).timer,
            final(self).last_enemy_time == old(self).last_enemy_time,
            final(self).last_gate_time == old(self).last_gate_time,
            final(self).enemies_per_wave == old(self).enemies_per_wave,
            final(self).aspect_ratio == old(self).aspect_ratio,
    {
        // 1. Move the player by the held keys.
        let vx: i64 = (if self.keys.right { 1 } else { 0 }) - (if self.keys.left { 1 } else { 0 });
        let vy: i64 = (if self.keys.up { 1 } else { 0 }) - (if self.keys.down { 1 } else { 0 });
        let pd = rescale((vx * SCALE, vy * SCALE), PLAYER_SPEED);
        let np = step_pos(self.player.game_object.coords, pd);
        self.player.game_object.coords = np;
        let px = np.0;
        let py = np.1;
        let ghost p2 = player_step_spec(
            old(self).player.game_object.coords.0 as int,
            old(self).player.game_object.coords.1 as int,
            old(self).keys,
        );
        proof {
            assert(px == p2.0 && py == p2.1);
        }

        // 2. Every enemy pursues the moved player.
        let ghost epre = self.enemies@;
        let n = self.enemies.len();
        let mut i: usize = 0;
        while i < n
            invariant
                i <= n,
                n == self.enemies@.len(),
                n == epre.len(),
                epre == old(self).enemies@,
                old(self).wf(),
                pos_ok((px, py)),
                forall|j: int| i <= j < n ==> (#[trigger] self.enemies@[j]) == epre[j],
                forall|j: int| 0 <= j < i ==> ({
                    let e2 = enemy_step_spec(
                        epre[j].game_object.coords.0 as int,
                        epre[j].game_object.coords.1 as int,
                        px as int,
                        py as int,
                    );
                    (#[trigger] self.enemies@[j]).game_object.coords.0 == e2.0
                        && self.enemies@[j].game_object.coords.1 == e2.1
                        && self.enemies@[j].wf()
                }),
                self.player.game_object.coords == np,
                self.keys == old(self).keys,
                self.gates@ == old(self).gates@,
                self.paused == old(self).paused,
                self.timer == old(self).timer,
                self.last_enemy_time == old(self).last_enemy_time,
                self.last_gate_time == old(self).last_gate_time,
                self.enemies_per_wave == old(self).enemies_per_wave,
                self.aspect_ratio == old(self).aspect_ratio,
            decreases n - i,
        {
            let e = self.enemies[i].game_object.coords;
            let ed = rescale((px - e.0, py - e.1), ENEMY_SPEED);
            let ne = step_pos(e, ed);
            self.enemies[i] = Enemy { game_object: GameObject { coords: ne } };
            i = i + 1;
        }

        // 3. Every gate rotates.
        let ghost gpre = self.gates@;
        let m = self.gates.len();
        let mut j: usize = 0;
        while j < m
            invariant
                j <= m,
                m == self.gates@.len(),
                m == gpre.len(),
                gpre == old(self).gates@,
                old(self).wf(),
                0 <= dt <= MAX_DT,
                pos_ok((px, py)),
                forall|k: int| j <= k < m ==> (#[trigger] self.gates@[k]) == gpre[k],
                forall|k: int| 0 <= k < j
                    ==> (#[trigger] self.gates@[k]) == gate_step_spec(gpre[k], dt as int)
                        && self.gates@[k].wf(),
                self.enemies@.len() == epre.len(),
                epre == old(self).enemies@,
                forall|k: int| 0 <= k < self.enemies@.len()
                    ==> (#[trigger] self.enemies@[k]).wf(),
                enemies_stepped(epre, self.enemies@, px as int, py as int),
                self.player.game_object.coords == np,
                self.keys == old(self).keys,
                self.paused == old(self).paused,
                self.timer == old(self).timer,
                self.last_enemy_time == old(self).last_enemy_time,
                self.last_gate_time == old(self).last_gate_time,
                self.enemies_per_wave == old(self).enemies_per_wave,
                self.aspect_ratio == old(self).aspect_ratio,
            decreases m - j,
        {
            let g = self.gates[j];
            let g2 = rotate_gate(&g, dt);
            self.gates[j] = g2;
            j = j + 1;
        }
        proof {
            assert(self.gates@ =~= stepped_gates(gpre, dt as int));
        }

        // 4. Any gate edge touching the player pauses the game.
        let ghost grot = self.gates@;
        let mut hit = false;
        let mut k: usize = 0;
        while k < m
            invariant
                k <= m,
                m == self.gates@.len(),
                self.gates@ == grot,
                grot == stepped_gates(gpre, dt as int),
                gpre == old(self).gates@,
                old(self).wf(),
                pos_ok((px, py)),
                MIN_ASPECT <= self.aspect_ratio <= MAX_ASPECT,
                forall|t: int| 0 <= t < m ==> (#[trigger] self.gates@[t]).wf(),
                hit == exists|t: int| 0 <= t < k
                    && gate_hits_spec(px as int, py as int, grot[t], self.aspect_ratio as int),
                self.enemies@.len() == epre.len(),
                epre == old(self).enemies@,
                forall|t: int| 0 <= t < self.enemies@.len()
                    ==> (#[trigger] self.enemies@[t]).wf(),
                enemies_stepped(epre, self.enemies@, px as int, py as int),
                self.player.game_object.coords == np,
                self.keys == old(self).keys,
                self.paused == old(self).paused,
                self.timer == old(self).timer,
                self.last_enemy_time == old(self).last_enemy_time,
                self.last_gate_time == old(self).last_gate_time,
                self.enemies_per_wave == old(self).enemies_per_wave,
                self.aspect_ratio == old(self).aspect_ratio,
            decreases m - k,
        {
            let g = self.gates[k];
            let gh = gate_hits((px, py), &g, self.aspect_ratio);
            proof {
                if gh {
                    assert(gate_hits_spec(px as int, py as int, grot[k as int],
                        self.aspect_ratio as int));
                }
            }
            hit = hit || gh;
            k = k + 1;
        }
        if hit {
            self.paused = true;
        }
    }

    /// Advances the simulation one tick when running (a paused game is
    /// untouched): the player moves by the held keys, every enemy pursues
    /// the moved player, every gate rotates, any gate edge touching the
    /// player pauses the game, the clock advances, and each spawner fires
    /// once if its threshold was strictly passed.
    #[verifier::rlimit(100)]
    pub fn update(&mut self, dt: i64)
        requires
            old(self).wf(),
            0 <= dt <= MAX_DT,
        ensures
            final(self).wf(),
            // The clock never runs backward, and wave sizes never shrink.
            final(self).timer >= old(self).timer,
            final(self).enemies_per_wave >= old(self).enemies_per_wave,
            old(self).paused ==> game_unchanged(*old(self), *final(self)),
            !old(self).paused ==> ({
                let p2 = player_step_spec(
                    old(self).player.game_object.coords.0 as int,
                    old(self).player.game_object.coords.1 as int,
                    old(self).keys,
                );
                &&& final(self).keys == old(self).keys
                &&& final(self).aspect_ratio == old(self).aspect_ratio
                &&& final(self).player.game_object.coords.0 == p2.0
                &&& final(self).player.game_object.coords.1 == p2.1
                &&& enemies_stepped(old(self).enemies@, final(self).enemies@, p2.0, p2.1)
                &&& gates_stepped(old(self).gates@, final(self).gates@, dt as int)
                &&& final(self).paused == any_gate_hits_spec(
                    p2.0,
                    p2.1,
                    stepped_gates(old(self).gates@, dt as int),
                    old(self).aspect_ratio as int,
                )
                &&& final(self).timer == timer_step_spec(old(self).timer as int, dt as int)
                &&& (enemy_wave_due(*old(self), dt as int) ==> ({
                    &&& final(self).enemies@.len()
                        == old(self).enemies@.len() + old(self).enemies_per_wave
                    &&& final(self).enemies_per_wave
                        == if old(self).enemies_per_wave < MAX_WAVE {
                            old(self).enemies_per_wave + 1
                        } else {
                            old(self).enemies_per_wave as int
                        }
                    &&& final(self).last_enemy_time == final(self).timer
                    &&& exists|q: int| 1 <= q <= 4
                        && wave_in_band(old(self).enemies@, final(self).enemies@, q)
                }))
                &&& (!enemy_wave_due(*old(self), dt as int) ==> ({
                    &&& final(self).enemies@.len() == old(self).enemies@.len()
                    &&& final(self).enemies_per_wave == old(self).enemies_per_wave
                    &&& final(self).last_enemy_time == old(self).last_enemy_time
                }))
                &&& (gate_due(*old(self), dt as int) ==> ({
                    let fresh = final(self).gates@[old(self).gates@.len() as int];
                    &&& final(self).gates@.len() == old(self).gates@.len() + 1
                    &&& final(self).last_gate_time == final(self).timer
                    &&& 0 <= fresh.game_object.coords.0 < SCALE
                    &&& 0 <= fresh.game_object.coords.1 < SCALE
                    &&& fresh.rotation == 0
                    &&& fresh.spin_speed == crate::constants::SPIN_SPEED
                }))
                &&& (!gate_due(*old(self), dt as int) ==> ({
                    &&& final(self).gates@.len() == old(self).gates@.len()
                    &&& final(self).last_gate_time == old(self).last_gate_time
                }))
            }),
            // Spawn accounting: waves of size 1, 2, 3, ... keep twice the
            // enemy count at wave * (wave - 1), so after N waves the total
            // is the triangular number 1 + 2 + ... + N.
            (2 * old(self).enemies@.len()
                == (old(self).enemies_per_wave - 1) * old(self).enemies_per_wave
                && old(self).enemies_per_wave < MAX_WAVE)
                ==> 2 * final(self).enemies@.len()
                    == (final(self).enemies_per_wave - 1) * final(self).enemies_per_wave,
            // A zero tick in a settled state (no key held, every enemy
            // already at the player, no gate edge touching the player, no
            // spawn pending) changes nothing, however often it is taken.
            settled(*old(self), dt as int) ==> game_unchanged(*old(self), *final(self)),
    {
        if self.paused {
            return;
        }

        self.tick_entities(dt);

        // 5. Advance the clock, saturating at its cap.
        let t = self.timer;
        self.timer = if t <= MAX_TIMER - dt {
            t + dt
        } else {
            MAX_TIMER
        };

        // 6. Spawn an enemy wave if its threshold was strictly passed.
        let ghost moved_enemies = self.enemies@;
        if self.timer > self.last_enemy_time + ENEMY_SPAWN_FREQ {
            self.spawn_enemies();
        }

        // 7. Spawn a gate if its threshold was strictly passed.
        if self.timer > self.last_gate_time + GATE_SPAWN_FREQ {
            self.spawn_gate();
        }

        proof {
            let pre = *old(self);
            // Spawn accounting.
            if 2 * pre.enemies@.len() == (pre.enemies_per_wave - 1) * pre.enemies_per_wave
                && pre.enemies_per_wave < MAX_WAVE {
                if enemy_wave_due(pre, dt as int) {
                    let w = pre.enemies_per_wave as int;
                    assert((w - 1) * w + 2 * w == w * (w + 1)) by (nonlinear_arith);
                    assert(((w + 1) - 1) * (w + 1) == w * (w + 1)) by (nonlinear_arith);
                }
            }
            // The spawned wave sits in one corner band, whether counted
            // from the moved enemies or from the tick's starting state:
            // both have the same length, and the band facts concern only
            // the appended entries.
            if !pre.paused && enemy_wave_due(pre, dt as int) {
                let q = choose|q: int| 1 <= q <= 4
                    && wave_in_band(moved_enemies, self.enemies@, q);
                assert(wave_in_band(pre.enemies@, self.enemies@, q));
            }
            // The settled zero tick.
            if settled(pre, dt as int) {
                lemma_settled_tick(pre, *self);
            }
        }
    }
}

/// The settled-state conditions under which a zero tick is an identity:
/// running, no key held, every enemy already at the player, no gate edge
/// touching the player, and no spawn threshold already passed.
pub open spec fn settled(g: Game, dt: int) -> bool {
    &&& !g.paused
    &&& dt == 0
    &&& no_keys(g.keys)
    &&& (forall|i: int| 0 <= i < g.enemies@.len()
        ==> (#[trigger] g.enemies@[i]).game_object.coords == g.player.game_object.coords)
    &&& !any_gate_hits_spec(
        g.player.game_object.coords.0 as int,
        g.player.game_object.coords.1 as int,
        g.gates@,
        g.aspect_ratio as int,
    )
    &&& !enemy_wave_due(g, 0)
    &&& !gate_due(g, 0)
}

/// In a settled state the zero tick moves nothing: the motion relation and
/// untouched bookkeeping collapse to equality with the old state.
proof fn lemma_settled_tick(pre: Game, post: Game)
    requires
        pre.wf(),
        settled(pre, 0),
        motion_done(pre, post, 0),
        post.keys == pre.keys,
        post.timer == timer_step_spec(pre.timer as int, 0),
        post.last_enemy_time == pre.last_enemy_time,
        post.last_gate_time == pre.last_gate_time,
        post.enemies_per_wave == pre.enemies_per_wave,
        post.aspect_ratio == pre.aspect_ratio,
    ensures
        game_unchanged(pre, post),
{
    let px = pre.player.game_object.coords.0 as int;
    let py = pre.player.game_object.coords.1 as int;
    let p2 = player_step_spec(px, py, pre.keys);
    lemma_zero_rescale(PLAYER_SPEED as int);
    lemma_zero_rescale(ENEMY_SPEED as int);
    assert(p2.0 == px && p2.1 == py);
    assert(post.player == pre.player);
    assert forall|t: int| 0 <= t < pre.gates@.len()
        implies (#[trigger] stepped_gates(pre.gates@, 0)[t]) == pre.gates@[t] by {
        lemma_gate_step_zero(pre.gates@[t]);
    }
    assert(stepped_gates(pre.gates@, 0) =~= pre.gates@);
    assert(post.gates@ =~= pre.gates@);
    assert forall|t: int| 0 <= t < post.enemies@.len()
        implies (#[trigger] post.enemies@[t]) == pre.enemies@[t] by {
        assert(post.enemies@[t].game_object.coords.0 == pre.enemies@[t].game_object.coords.0);
        assert(post.enemies@[t].game_object.coords.1 == pre.enemies@[t].game_object.coords.1);
    }
    assert(post.enemies@ =~= pre.enemies@);
}

/// Rescaling the zero vector moves nothing.
proof fn lemma_zero_rescale(speed: int)
    ensures
        rescale_x_spec(0, 0, speed) == 0,
        rescale_y_spec(0, 0, speed) == 0,
{
    assert(sqrt_floor(0) == 0);
    vstd::arithmetic::div_mod::lemma_div_of0(1int);
}

/// A zero tick leaves a well-formed gate exactly as it was.
proof fn lemma_gate_step_zero(g: Gate)
    requires
        g.wf(),
    ensures
        gate_step_spec(g, 0) == g,
{
    vstd::arithmetic::div_mod::lemma_div_of0(SCALE as int);
    vstd::arithmetic::div_mod::lemma_small_mod(g.rotation as nat, TURN as nat);
}

} // verus!
