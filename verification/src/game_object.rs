//! Entity value types: the player, the pursuing enemies, and the rotating
//! triangular gates, each a positional `GameObject` plus whatever extra
//! state the kind carries.

use vstd::prelude::*;

use crate::constants::GATE_RADIUS;
use crate::constants::MAX_COORD;
use crate::constants::MAX_SPIN;
use crate::constants::SCALE;
use crate::constants::SPIN_SPEED;
use crate::constants::THIRD_TURN;
use crate::constants::TURN;
use crate::fixed::mul_div;
use crate::fixed::mul_div_spec;
use crate::fixed::lemma_mul_div_magnitude;
use crate::trig::cos_fp;
use crate::trig::cos_spec;
use crate::trig::sin_fp;
use crate::trig::sin_spec;

verus! {

/// A coordinate stays inside the saturated arena.
pub open spec fn coord_ok(x: int) -> bool {
    -MAX_COORD <= x <= MAX_COORD
}

/// Both coordinates of a position stay inside the arena.
pub open spec fn pos_ok(p: (i64, i64)) -> bool {
    coord_ok(p.0 as int) && coord_ok(p.1 as int)
}

/// Base positional state shared by every entity.
#[derive(Clone, Copy, PartialEq, Eq, Debug)]
pub struct GameObject {
    pub coords: (i64, i64),
}

/// The one player-controlled circle.
#[derive(Clone, Copy, PartialEq, Eq, Debug)]
pub struct Player {
    pub game_object: GameObject,
}

/// A pursuing enemy.
#[derive(Clone, Copy, PartialEq, Eq, Debug)]
pub struct Enemy {
    pub game_object: GameObject,
}

/// A rotating triangular hazard.  The rotation is kept reduced into
/// `[0, TURN)`; angles are equivalent modulo a full turn, so nothing
/// observable is lost by the reduction.
#[derive(Clone, Copy, PartialEq, Eq, Debug)]
pub struct Gate {
    pub game_object: GameObject,
    pub rotation: i64,
    pub spin_speed: i64,
}

impl Player {
    /// The player starts at the origin.
    pub fn new() -> (player: Self)
        ensures
            player.game_object.coords == (0i64, 0i64),
    {
        Self { game_object: GameObject { coords: (0, 0) } }
    }
}

impl Enemy {
    /// Well-formed: inside the arena.
    pub open spec fn wf(self) -> bool {
        pos_ok(self.game_object.coords)
    }

    /// An enemy appears exactly where the spawner puts it.
    pub fn new(coords: (i64, i64)) -> (enemy: Self)
        requires
            pos_ok(coords),
        ensures
            enemy.game_object.coords == coords,
            enemy.wf(),
    {
        Self { game_object: GameObject { coords } }
    }
}

impl Gate {
    /// Well-formed: inside the arena, rotation reduced, spin bounded.
    pub open spec fn wf(self) -> bool {
        &&& pos_ok(self.game_object.coords)
        &&& 0 <= self.rotation < TURN
        &&& 0 <= self.spin_speed <= MAX_SPIN
    }

    /// A gate appears unrotated, with the standard angular velocity.
    pub fn new(coords: (i64, i64)) -> (gate: Self)
        requires
            pos_ok(coords),
        ensures
            gate.game_object.coords == coords,
            gate.rotation == 0,
            gate.spin_speed == SPIN_SPEED,
            gate.wf(),
    {
        Self { game_object: GameObject { coords }, rotation: 0, spin_speed: SPIN_SPEED }
    }

    /// X coordinate of triangle vertex `k` (0, 1 or 2), offset a third of a
    /// turn from its neighbours.
    pub open spec fn vertex_x_spec(self, k: int) -> int {
        self.game_object.coords.0
            + mul_div_spec(cos_spec(self.rotation + k * THIRD_TURN), GATE_RADIUS as int, SCALE as int)
    }

    /// Y coordinate of triangle vertex `k`.
    pub open spec fn vertex_y_spec(self, k: int) -> int {
        self.game_object.coords.1
            + mul_div_spec(sin_spec(self.rotation + k * THIRD_TURN), GATE_RADIUS as int, SCALE as int)
    }

    /// Reconstructs triangle vertex `k` from this gate's position and
    /// current rotation; vertices are never cached, since the rotation
    /// changes every tick.
    pub fn vertex(&self, k: u8) -> (v: (i64, i64))
        requires
            self.wf(),
            k < 3,
        ensures
            v.0 == self.vertex_x_spec(k as int),
            v.1 == self.vertex_y_spec(k as int),
            -(MAX_COORD + GATE_RADIUS) <= v.0 <= MAX_COORD + GATE_RADIUS,
            -(MAX_COORD + GATE_RADIUS) <= v.1 <= MAX_COORD + GATE_RADIUS,
    {
        let angle = self.rotation + (k as i64) * THIRD_TURN;
        let c = cos_fp(angle);
        let s = sin_fp(angle);
        let ox = mul_div(c, GATE_RADIUS, SCALE);
        let oy = mul_div(s, GATE_RADIUS, SCALE);
        proof {
            lemma_mul_div_magnitude(c as int, GATE_RADIUS as int, SCALE as int, SCALE as int);
            lemma_mul_div_magnitude(s as int, GATE_RADIUS as int, SCALE as int, SCALE as int);
            vstd::arithmetic::div_mod::lemma_div_by_multiple(GATE_RADIUS as int, SCALE as int);
        }
        (self.game_object.coords.0 + ox, self.game_object.coords.1 + oy)
    }
}

} // verus!
