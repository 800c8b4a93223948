//! Exact dyadic fixed-point coordinates.
//!
//! A coordinate is an integer numerator over the denominator `2^exp`.  The
//! pentagon's vertices are whole numbers (`exp == 0`); every jump of the
//! chaos game halves the step, so each midpoint deepens the denominator by
//! one power of two and stays exact.

use vstd::prelude::*;
use vstd::arithmetic::power2::{
    lemma2_to64, lemma2_to64_rest, lemma_pow2_pos, lemma_pow2_strictly_increases,
    lemma_pow2_unfold, pow2,
};
use vstd::arithmetic::mul::{lemma_mul_nonnegative, lemma_mul_upper_bound};

verus! {

/// Width and height of the square that the pentagon is drawn in.
pub const BOX_SIZE: i64 = 1600;

/// Largest precision exponent a moving point may carry.  It keeps every
/// numerator within `i64`: `BOX_SIZE * pow2(EXP_LIMIT)` is far below
/// `i64::MAX`.
pub const EXP_LIMIT: u32 = 40;

/// A fixed polygon vertex, with whole-number coordinates.
#[derive(Clone, Copy, PartialEq, Eq, Structural, Debug)]
pub struct Point {
    pub x: i64,
    pub y: i64,
}

impl Point {
    /// Both coordinates lie in the drawing box.
    pub open spec fn wf(self) -> bool {
        0 <= self.x <= BOX_SIZE && 0 <= self.y <= BOX_SIZE
    }

    pub fn new(x: i64, y: i64) -> (p: Point)
        requires
            0 <= x <= BOX_SIZE,
            0 <= y <= BOX_SIZE,
        ensures
            p.x == x,
            p.y == y,
            p.wf(),
    {
        Point { x, y }
    }
}

/// The moving point of the chaos game: coordinate numerators over the
/// denominator `2^exp`, and the index of the vertex chosen last.
#[derive(Clone, Copy, PartialEq, Eq, Structural, Debug)]
pub struct RandomPoint {
    pub x: i64,
    pub y: i64,
    pub exp: u32,
    pub vertex: usize,
}

impl RandomPoint {
    /// The point never leaves the drawing box and its numerators never
    /// outgrow `i64`.
    pub open spec fn wf(self) -> bool {
        &&& self.exp <= EXP_LIMIT
        &&& 0 <= self.x <= BOX_SIZE * pow2(self.exp as nat)
        &&& 0 <= self.y <= BOX_SIZE * pow2(self.exp as nat)
        &&& self.vertex < 5
    }

    /// A whole-number starting point (`exp == 0`) tagged with a vertex index.
    pub fn new(x: i64, y: i64, vertex: usize) -> (p: RandomPoint)
        requires
            0 <= x <= BOX_SIZE,
            0 <= y <= BOX_SIZE,
            vertex < 5,
        ensures
            p.x == x,
            p.y == y,
            p.exp == 0,
            p.vertex == vertex,
            p.wf(),
    {
        proof {
            lemma2_to64();
        }
        RandomPoint { x, y, exp: 0, vertex }
    }

    /// The point halfway between `self` and the vertex `v`, tagged with the
    /// vertex's index.  Halving deepens the denominator by one power of two,
    /// so the numerators stay exact: the new numerator over `2^(exp + 1)` is
    /// the old one plus the vertex's coordinate scaled to `2^exp`.
    pub fn midpoint_toward(&self, v: &Point, vertex: usize) -> (m: RandomPoint)
        requires
            self.wf(),
            v.wf(),
            self.exp < EXP_LIMIT,
            vertex < 5,
        ensures
            m.wf(),
            m.exp == self.exp + 1,
            m.vertex == vertex,
            m.x == self.x + v.x * pow2(self.exp as nat),
            m.y == self.y + v.y * pow2(self.exp as nat),
    {
        let scale: i64 = pow2_i64(self.exp);
        proof {
            lemma_pow2_strictly_increases(self.exp as nat, EXP_LIMIT as nat);
            lemma2_to64_rest();
            lemma_pow2_pos(self.exp as nat);
            lemma_mul_nonnegative(v.x as int, scale as int);
            lemma_mul_nonnegative(v.y as int, scale as int);
            lemma_mul_upper_bound(v.x as int, BOX_SIZE as int, scale as int,
                pow2(self.exp as nat) as int);
            lemma_mul_upper_bound(v.y as int, BOX_SIZE as int, scale as int,
                pow2(self.exp as nat) as int);
            lemma_pow2_unfold((self.exp + 1) as nat);
        }
        let mx: i64 = self.x + v.x * scale;
        let my: i64 = self.y + v.y * scale;
        RandomPoint { x: mx, y: my, exp: self.exp + 1, vertex }
    }
}

/// The numerator of `x / 2^exp` rewritten over the deeper denominator
/// `2^target`.
pub open spec fn scaled(x: int, exp: nat, target: nat) -> int
    recommends
        exp <= target,
{
    x * pow2((target - exp) as nat)
}

/// The midpoint law of the chaos game: brought over the common denominator
/// `2^m.exp`, twice the midpoint's numerator is the sum of the two
/// endpoints' numerators — in each coordinate the midpoint is the exact
/// arithmetic mean of the moving point and the vertex.
pub proof fn lemma_midpoint_is_mean(p: RandomPoint, v: Point, m: RandomPoint)
    requires
        m.exp == p.exp + 1,
        m.x == p.x + v.x * pow2(p.exp as nat),
        m.y == p.y + v.y * pow2(p.exp as nat),
    ensures
        2 * scaled(m.x as int, m.exp as nat, m.exp as nat) == scaled(
            p.x as int,
            p.exp as nat,
            m.exp as nat,
        ) + scaled(v.x as int, 0, m.exp as nat),
        2 * scaled(m.y as int, m.exp as nat, m.exp as nat) == scaled(
            p.y as int,
            p.exp as nat,
            m.exp as nat,
        ) + scaled(v.y as int, 0, m.exp as nat),
{
    lemma2_to64();
    lemma_pow2_unfold(m.exp as nat);
    assert(scaled(m.x as int, m.exp as nat, m.exp as nat) == m.x * pow2(0));
    assert(scaled(p.x as int, p.exp as nat, m.exp as nat) == p.x * pow2(1));
    assert(v.x * (2 * pow2(p.exp as nat)) == 2 * (v.x * pow2(p.exp as nat)))
        by (nonlinear_arith);
    assert(v.y * (2 * pow2(p.exp as nat)) == 2 * (v.y * pow2(p.exp as nat)))
        by (nonlinear_arith);
}

/// `2^e` as an `i64`, for the small exponents a point can carry.
pub fn pow2_i64(e: u32) -> (r: i64)
    requires
        e <= EXP_LIMIT,
    ensures
        r == pow2(e as nat),
{
    proof {
        lemma2_to64();
        lemma2_to64_rest();
    }
    let mut r: i64 = 1;
    let mut i: u32 = 0;
    while i < e
        invariant
            i <= e,
            e <= EXP_LIMIT,
            r == pow2(i as nat),
        decreases e - i,
    {
        proof {
            lemma_pow2_unfold((i + 1) as nat);
            if i + 1 < EXP_LIMIT {
                lemma_pow2_strictly_increases((i + 1) as nat, EXP_LIMIT as nat);
            }
            lemma2_to64_rest();
        }
        r = r * 2;
        i = i + 1;
    }
    r
}

} // verus!
