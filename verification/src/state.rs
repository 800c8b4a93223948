//! The pentagon chaos game: its state and its per-frame step.

use vstd::prelude::*;
use vstd::arithmetic::power2::pow2;
use crate::geom::{Point, RandomPoint, EXP_LIMIT};
use crate::rng::random_index_below;

verus! {

/// How many vertices the pentagon has.
pub const NUM_VERTICES: usize = 5;

/// How many re-rolls a single frame may spend before it falls back on the
/// previous vertex (which is never its own circular neighbour).  Verified
/// code must terminate, so the re-rolling cannot be left unbounded; at 64
/// draws the fallback is vanishingly rare.
pub const MAX_REROLLS: u32 = 64;

/// How far apart two vertex indices are, as a plain difference.
pub open spec fn index_gap(a: int, b: int) -> int {
    if a >= b {
        a - b
    } else {
        b - a
    }
}

/// The restriction of the pentagon variant: the next vertex may not be a
/// circular neighbour of the last one, i.e. for indices `0..5` the gap may
/// be neither 1 nor 4.
pub open spec fn allowed_next(next: int, prev: int) -> bool {
    index_gap(next, prev) != 1 && index_gap(next, prev) != 4
}

/// Decides `allowed_next` on concrete indices.
pub fn is_allowed_next(next: usize, prev: usize) -> (r: bool)
    ensures
        r == allowed_next(next as int, prev as int),
{
    let gap: usize = if next >= prev {
        next - prev
    } else {
        prev - next
    };
    gap != 1 && gap != 4
}

/// Draw a vertex index, re-rolling while the draw is a circular neighbour of
/// `prev`.  If every draw of a bounded run was rejected, `prev` itself is
/// kept: its gap is 0, so it is always allowed.
pub fn pick_next_vertex(prev: usize) -> (next: usize)
    requires
        prev < 5,
    ensures
        next < 5,
        allowed_next(next as int, prev as int),
{
    let mut tries: u32 = 0;
    let mut candidate: usize = random_index_below(NUM_VERTICES);
    while !is_allowed_next(candidate, prev) && tries < MAX_REROLLS
        invariant
            candidate < 5,
            prev < 5,
            tries <= MAX_REROLLS,
        decreases MAX_REROLLS - tries,
    {
        candidate = random_index_below(NUM_VERTICES);
        tries = tries + 1;
    }
    if is_allowed_next(candidate, prev) {
        candidate
    } else {
        prev
    }
}

/// An RGB colour, one channel per byte.
#[derive(Clone, Copy, PartialEq, Eq, Structural, Debug)]
pub struct Color {
    pub r: u8,
    pub g: u8,
    pub b: u8,
}

/// The colour each vertex paints the point it attracts.
pub open spec fn vertex_color_spec(i: int) -> Color {
    if i == 0 {
        Color { r: 0, g: 255, b: 0 }
    } else if i == 1 {
        Color { r: 0, g: 0, b: 255 }
    } else if i == 2 {
        Color { r: 255, g: 0, b: 0 }
    } else if i == 3 {
        Color { r: 255, g: 255, b: 0 }
    } else {
        Color { r: 0, g: 255, b: 255 }
    }
}

/// The colour of vertex `i`, as `vertex_color_spec` gives it.
pub fn vertex_color(i: usize) -> (c: Color)
    requires
        i < 5,
    ensures
        c == vertex_color_spec(i as int),
{
    match i {
        0 => Color { r: 0, g: 255, b: 0 },
        1 => Color { r: 0, g: 0, b: 255 },
        2 => Color { r: 255, g: 0, b: 0 },
        3 => Color { r: 255, g: 255, b: 0 },
        _ => Color { r: 0, g: 255, b: 255 },
    }
}

/// The five pentagon vertices and the moving point.
pub struct MainState {
    pub point_a: Point,
    pub point_b: Point,
    pub point_c: Point,
    pub point_d: Point,
    pub point_e: Point,
    pub random: RandomPoint,
}

impl MainState {
    /// Every vertex and the moving point lie in the drawing box.
    pub open spec fn wf(self) -> bool {
        &&& self.point_a.wf()
        &&& self.point_b.wf()
        &&& self.point_c.wf()
        &&& self.point_d.wf()
        &&& self.point_e.wf()
        &&& self.random.wf()
    }

    /// The vertex that index `i` names.
    pub open spec fn vertex_at(self, i: int) -> Point {
        if i == 0 {
            self.point_a
        } else if i == 1 {
            self.point_b
        } else if i == 2 {
            self.point_c
        } else if i == 3 {
            self.point_d
        } else {
            self.point_e
        }
    }

    /// The fixed pentagon, with the moving point on its first vertex.
    pub fn new() -> (s: MainState)
        ensures
            s.wf(),
            s.point_a == (Point { x: 800, y: 0 }),
            s.point_b == (Point { x: 39, y: 553 }),
            s.point_c == (Point { x: 330, y: 1447 }),
            s.point_d == (Point { x: 1270, y: 1447 }),
            s.point_e == (Point { x: 1561, y: 553 }),
            s.random == (RandomPoint { x: 800, y: 0, exp: 0, vertex: 0 }),
    {
        MainState {
            point_a: Point::new(800, 0),
            point_b: Point::new(39, 553),
            point_c: Point::new(330, 1447),
            point_d: Point::new(1270, 1447),
            point_e: Point::new(1561, 553),
            random: RandomPoint::new(800, 0, 0),
        }
    }

    /// Move the point halfway toward vertex `next` and record `next` as the
    /// last vertex chosen; the returned colour is the one this frame paints
    /// with.  Deterministic: given the drawn index, the new state is pinned.
    pub fn apply_step(&mut self, next: usize) -> (c: Color)
        requires
            old(self).wf(),
            old(self).random.exp < EXP_LIMIT,
            next < 5,
        ensures
            final(self).wf(),
            c == vertex_color_spec(next as int),
            final(self).random.vertex == next,
            final(self).random.exp == old(self).random.exp + 1,
            final(self).random.x == old(self).random.x
                + old(self).vertex_at(next as int).x * pow2(old(self).random.exp as nat),
            final(self).random.y == old(self).random.y
                + old(self).vertex_at(next as int).y * pow2(old(self).random.exp as nat),
            final(self).point_a == old(self).point_a,
            final(self).point_b == old(self).point_b,
            final(self).point_c == old(self).point_c,
            final(self).point_d == old(self).point_d,
            final(self).point_e == old(self).point_e,
    {
        let v: Point = match next {
            0 => self.point_a,
            1 => self.point_b,
            2 => self.point_c,
            3 => self.point_d,
            _ => self.point_e,
        };
        let m: RandomPoint = self.random.midpoint_toward(&v, next);
        self.random = m;
        vertex_color(next)
    }

    /// One frame of the chaos game: draw an allowed vertex index, move the
    /// point halfway toward that vertex, and return the frame's colour.
    pub fn update(&mut self) -> (c: Color)
        requires
            old(self).wf(),
            old(self).random.exp < EXP_LIMIT,
        ensures
            final(self).wf(),
            final(self).random.vertex < 5,
            allowed_next(final(self).random.vertex as int, old(self).random.vertex as int),
            c == vertex_color_spec(final(self).random.vertex as int),
            final(self).random.exp == old(self).random.exp + 1,
            final(self).random.x == old(self).random.x
                + old(self).vertex_at(final(self).random.vertex as int).x
                    * pow2(old(self).random.exp as nat),
            final(self).random.y == old(self).random.y
                + old(self).vertex_at(final(self).random.vertex as int).y
                    * pow2(old(self).random.exp as nat),
            final(self).point_a == old(self).point_a,
            final(self).point_b == old(self).point_b,
            final(self).point_c == old(self).point_c,
            final(self).point_d == old(self).point_d,
            final(self).point_e == old(self).point_e,
    {
        let next: usize = pick_next_vertex(self.random.vertex);
        self.apply_step(next)
    }
}

} // verus!
