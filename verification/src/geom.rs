//! Exact coordinates, vectors and triangles.
//!
//! A `Coord` is the length `q * (pixel_size / 4) + b * base_size + h * base_height`,
//! stored as the integer coefficients `(q, b, h)`. Every length the mesh ever
//! needs has this shape: tile corners are whole pixels, the relief thickness is
//! a quarter pixel, and the frame adds the base margin and base height.

use vstd::prelude::*;

verus! {

/// An exact length: `q` quarter pixels plus `b` base widths plus `h` base heights.
#[derive(Clone, Copy, Debug, PartialEq, Eq, Structural)]
pub struct Coord {
    pub q: i64,
    pub b: i64,
    pub h: i64,
}

impl Coord {
    /// `self` is at most `other` for every choice of the three lengths
    /// (`pixel_size > 0`, `base_size >= 0`, `base_height >= 0`): each
    /// coefficient is at most the matching one.
    pub open spec fn le(self, other: Coord) -> bool {
        self.q <= other.q && self.b <= other.b && self.h <= other.h
    }

    /// The pointwise larger of two comparable coordinates.
    pub open spec fn max_spec(self, other: Coord) -> Coord {
        if self.le(other) {
            other
        } else {
            self
        }
    }

    /// The pointwise smaller of two comparable coordinates.
    pub open spec fn min_spec(self, other: Coord) -> Coord {
        if self.le(other) {
            self
        } else {
            other
        }
    }

    /// A length of whole pixels: `p` pixels is `4 p` quarter pixels.
    pub open spec fn pixels_spec(p: i64) -> Coord
        recommends
            4 * p <= i64::MAX,
            i64::MIN <= 4 * p,
    {
        Coord { q: (4 * p) as i64, b: 0, h: 0 }
    }

    /// Builds the length of `p` whole pixels.
    pub fn pixels(p: i64) -> (r: Coord)
        requires
            4 * p <= i64::MAX,
            i64::MIN <= 4 * p,
        ensures
            r == Coord::pixels_spec(p),
    {
        Coord { q: 4 * p, b: 0, h: 0 }
    }

    pub fn max(self, other: Coord) -> (r: Coord)
        ensures
            r == self.max_spec(other),
    {
        if self.q <= other.q && self.b <= other.b && self.h <= other.h {
            other
        } else {
            self
        }
    }

    pub fn min(self, other: Coord) -> (r: Coord)
        ensures
            r == self.min_spec(other),
    {
        if self.q <= other.q && self.b <= other.b && self.h <= other.h {
            self
        } else {
            other
        }
    }

    /// The sums of the coefficients stay within the machine integer range.
    pub open spec fn can_add(self, other: Coord) -> bool {
        i64::MIN <= self.q + other.q <= i64::MAX && i64::MIN <= self.b + other.b <= i64::MAX
            && i64::MIN <= self.h + other.h <= i64::MAX
    }

    /// Coefficientwise sum.
    pub open spec fn add_spec(self, other: Coord) -> Coord {
        Coord {
            q: (self.q + other.q) as i64,
            b: (self.b + other.b) as i64,
            h: (self.h + other.h) as i64,
        }
    }

    pub fn add(self, other: Coord) -> (r: Coord)
        requires
            self.can_add(other),
        ensures
            r == self.add_spec(other),
    {
        Coord { q: self.q + other.q, b: self.b + other.b, h: self.h + other.h }
    }

    /// Every coefficient can be negated without leaving the machine range.
    pub open spec fn can_neg(self) -> bool {
        self.q > i64::MIN && self.b > i64::MIN && self.h > i64::MIN
    }

    /// Coefficientwise negation.
    pub open spec fn neg_spec(self) -> Coord {
        Coord { q: (-self.q) as i64, b: (-self.b) as i64, h: (-self.h) as i64 }
    }

    pub fn neg(self) -> (r: Coord)
        requires
            self.can_neg(),
        ensures
            r == self.neg_spec(),
    {
        Coord { q: -self.q, b: -self.b, h: -self.h }
    }

    /// Subtraction is addition of the negation.
    pub open spec fn sub_spec(self, other: Coord) -> Coord {
        self.add_spec(other.neg_spec())
    }

    pub fn sub(self, other: Coord) -> (r: Coord)
        requires
            other.can_neg(),
            self.can_add(other.neg_spec()),
        ensures
            r == self.sub_spec(other),
    {
        self.add(other.neg())
    }

    /// The products with `k` stay within the machine integer range.
    pub open spec fn can_scale(self, k: i64) -> bool {
        i64::MIN <= k * self.q <= i64::MAX && i64::MIN <= k * self.b <= i64::MAX && i64::MIN <= k
            * self.h <= i64::MAX
    }

    /// Uniform scaling by an integer factor.
    pub open spec fn scale_spec(self, k: i64) -> Coord {
        Coord { q: (k * self.q) as i64, b: (k * self.b) as i64, h: (k * self.h) as i64 }
    }

    pub fn scale(self, k: i64) -> (r: Coord)
        requires
            self.can_scale(k),
        ensures
            r == self.scale_spec(k),
    {
        Coord { q: k * self.q, b: k * self.b, h: k * self.h }
    }

    /// The zero length.
    pub open spec fn zero_spec() -> Coord {
        Coord { q: 0, b: 0, h: 0 }
    }

    pub fn zero() -> (r: Coord)
        ensures
            r == Coord::zero_spec(),
    {
        Coord { q: 0, b: 0, h: 0 }
    }
}

/// A point or direction with one exact coordinate per axis.
#[derive(Clone, Copy, Debug, PartialEq, Eq, Structural)]
pub struct Vec3 {
    pub x: Coord,
    pub y: Coord,
    pub z: Coord,
}

impl Vec3 {
    pub open spec fn can_add(self, other: Vec3) -> bool {
        self.x.can_add(other.x) && self.y.can_add(other.y) && self.z.can_add(other.z)
    }

    /// Componentwise sum.
    pub open spec fn add_spec(self, other: Vec3) -> Vec3 {
        Vec3 {
            x: self.x.add_spec(other.x),
            y: self.y.add_spec(other.y),
            z: self.z.add_spec(other.z),
        }
    }

    pub fn add(self, other: Vec3) -> (r: Vec3)
        requires
            self.can_add(other),
        ensures
            r == self.add_spec(other),
    {
        Vec3 { x: self.x.add(other.x), y: self.y.add(other.y), z: self.z.add(other.z) }
    }

    pub open spec fn can_neg(self) -> bool {
        self.x.can_neg() && self.y.can_neg() && self.z.can_neg()
    }

    /// Componentwise negation.
    pub open spec fn neg_spec(self) -> Vec3 {
        Vec3 { x: self.x.neg_spec(), y: self.y.neg_spec(), z: self.z.neg_spec() }
    }

    pub fn neg(self) -> (r: Vec3)
        requires
            self.can_neg(),
        ensures
            r == self.neg_spec(),
    {
        Vec3 { x: self.x.neg(), y: self.y.neg(), z: self.z.neg() }
    }

    /// Subtraction is addition of the negation.
    pub open spec fn sub_spec(self, other: Vec3) -> Vec3 {
        self.add_spec(other.neg_spec())
    }

    pub fn sub(self, other: Vec3) -> (r: Vec3)
        requires
            other.can_neg(),
            self.can_add(other.neg_spec()),
        ensures
            r == self.sub_spec(other),
    {
        self.add(other.neg())
    }

    pub open spec fn can_scale(self, k: i64) -> bool {
        self.x.can_scale(k) && self.y.can_scale(k) && self.z.can_scale(k)
    }

    /// Uniform scaling by an integer factor.
    pub open spec fn scale_spec(self, k: i64) -> Vec3 {
        Vec3 { x: self.x.scale_spec(k), y: self.y.scale_spec(k), z: self.z.scale_spec(k) }
    }

    pub fn scale(self, k: i64) -> (r: Vec3)
        requires
            self.can_scale(k),
        ensures
            r == self.scale_spec(k),
    {
        Vec3 { x: self.x.scale(k), y: self.y.scale(k), z: self.z.scale(k) }
    }

    /// The origin; also the deliberately unset "zero normal".
    pub open spec fn zero_spec() -> Vec3 {
        Vec3 { x: Coord::zero_spec(), y: Coord::zero_spec(), z: Coord::zero_spec() }
    }

    pub fn zero() -> (r: Vec3)
        ensures
            r == Vec3::zero_spec(),
    {
        Vec3 { x: Coord::zero(), y: Coord::zero(), z: Coord::zero() }
    }

    /// A point given in whole pixels for x and y and quarter pixels for z.
    pub open spec fn pixel_point_spec(px: i64, py: i64, qz: i64) -> Vec3
        recommends
            4 * px <= i64::MAX,
            i64::MIN <= 4 * px,
            4 * py <= i64::MAX,
            i64::MIN <= 4 * py,
    {
        Vec3 {
            x: Coord::pixels_spec(px),
            y: Coord::pixels_spec(py),
            z: Coord { q: qz, b: 0, h: 0 },
        }
    }

    pub fn pixel_point(px: i64, py: i64, qz: i64) -> (r: Vec3)
        requires
            4 * px <= i64::MAX,
            i64::MIN <= 4 * px,
            4 * py <= i64::MAX,
            i64::MIN <= 4 * py,
        ensures
            r == Vec3::pixel_point_spec(px, py, qz),
    {
        Vec3 { x: Coord::pixels(px), y: Coord::pixels(py), z: Coord { q: qz, b: 0, h: 0 } }
    }
}

/// One mesh face: an (unset, zero) normal and three exact vertex positions.
#[derive(Clone, Copy, Debug, PartialEq, Eq, Structural)]
pub struct Triangle {
    pub normal: Vec3,
    pub v0: Vec3,
    pub v1: Vec3,
    pub v2: Vec3,
}

impl Triangle {
    /// All three vertices can be moved by `offset` without leaving the
    /// machine integer range.
    pub open spec fn can_translate(self, offset: Vec3) -> bool {
        self.v0.can_add(offset) && self.v1.can_add(offset) && self.v2.can_add(offset)
    }

    /// The triangle moved by `offset`: every vertex is translated and the
    /// normal is left untouched.
    pub open spec fn translate_spec(self, offset: Vec3) -> Triangle {
        Triangle {
            normal: self.normal,
            v0: self.v0.add_spec(offset),
            v1: self.v1.add_spec(offset),
            v2: self.v2.add_spec(offset),
        }
    }

    pub fn translate(self, offset: Vec3) -> (r: Triangle)
        requires
            self.can_translate(offset),
        ensures
            r == self.translate_spec(offset),
    {
        Triangle {
            normal: self.normal,
            v0: self.v0.add(offset),
            v1: self.v1.add(offset),
            v2: self.v2.add(offset),
        }
    }

    /// All three vertices can be scaled by `k` without leaving the machine
    /// integer range.
    pub open spec fn can_scale(self, k: i64) -> bool {
        self.v0.can_scale(k) && self.v1.can_scale(k) && self.v2.can_scale(k)
    }

    /// Uniform scaling of the three vertices; the normal is left untouched.
    pub open spec fn scale_spec(self, k: i64) -> Triangle {
        Triangle {
            normal: self.normal,
            v0: self.v0.scale_spec(k),
            v1: self.v1.scale_spec(k),
            v2: self.v2.scale_spec(k),
        }
    }

    pub fn scale(self, k: i64) -> (r: Triangle)
        requires
            self.can_scale(k),
        ensures
            r == self.scale_spec(k),
    {
        Triangle {
            normal: self.normal,
            v0: self.v0.scale(k),
            v1: self.v1.scale(k),
            v2: self.v2.scale(k),
        }
    }
}

} // verus!
