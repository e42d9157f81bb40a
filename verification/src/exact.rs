//! Exact arithmetic on vectors with integer components.
//!
//! The meaning of every operation is given on [`Triple`], a vector over the
//! mathematical integers, where nothing overflows and the usual laws of vector
//! algebra hold without exception. The executable operations on `Vec3<i64>`
//! compute exactly those results and ask only that the result can be stored.

use vstd::prelude::*;
use crate::vec3::Vec3;

verus! {

/// A vector over the mathematical integers.
pub struct Triple {
    pub x: int,
    pub y: int,
    pub z: int,
}

impl Triple {
    /// (0, 0, 0)
    pub open spec fn zero() -> Triple {
        Triple { x: 0, y: 0, z: 0 }
    }

    /// Component-wise negation.
    pub open spec fn negate(self) -> Triple {
        Triple { x: -self.x, y: -self.y, z: -self.z }
    }

    /// Component-wise sum.
    pub open spec fn add(self, other: Triple) -> Triple {
        Triple { x: self.x + other.x, y: self.y + other.y, z: self.z + other.z }
    }

    /// Component-wise difference.
    pub open spec fn subtract(self, other: Triple) -> Triple {
        Triple { x: self.x - other.x, y: self.y - other.y, z: self.z - other.z }
    }

    /// Component-wise (Hadamard) product.
    pub open spec fn multiply_elementwise(self, other: Triple) -> Triple {
        Triple { x: self.x * other.x, y: self.y * other.y, z: self.z * other.z }
    }

    /// Every component multiplied by `s`.
    pub open spec fn scale(self, s: int) -> Triple {
        Triple { x: self.x * s, y: self.y * s, z: self.z * s }
    }

    /// The inner product x1·x2 + y1·y2 + z1·z2.
    pub open spec fn dot(self, other: Triple) -> int {
        self.x * other.x + self.y * other.y + self.z * other.z
    }

    /// The cross product (y1·z2 − z1·y2, z1·x2 − x1·z2, x1·y2 − y1·x2).
    pub open spec fn cross(self, other: Triple) -> Triple {
        Triple {
            x: self.y * other.z - self.z * other.y,
            y: self.z * other.x - self.x * other.z,
            z: self.x * other.y - self.y * other.x,
        }
    }

    /// x² + y² + z²
    pub open spec fn length_squared(self) -> int {
        self.x * self.x + self.y * self.y + self.z * self.z
    }

    /// Whether each component can be stored in an `i64`.
    pub open spec fn representable(self) -> bool {
        fits(self.x) && fits(self.y) && fits(self.z)
    }
}

/// Whether `v` can be stored in an `i64`.
pub open spec fn fits(v: int) -> bool {
    i64::MIN <= v <= i64::MAX
}

impl View for Vec3<i64> {
    type V = Triple;

    open spec fn view(&self) -> Triple {
        Triple { x: self.x as int, y: self.y as int, z: self.z as int }
    }
}

/// The product of two stored scalars has magnitude at most 2^126.
proof fn product_bound(a: i64, b: i64)
    ensures
        -0x4000_0000_0000_0000_0000_0000_0000_0000 <= a * b
            <= 0x4000_0000_0000_0000_0000_0000_0000_0000,
{
    assert(-0x4000_0000_0000_0000_0000_0000_0000_0000 <= a * b
        <= 0x4000_0000_0000_0000_0000_0000_0000_0000) by (nonlinear_arith)
        requires
            -0x8000_0000_0000_0000 <= a <= 0x7fff_ffff_ffff_ffff,
            -0x8000_0000_0000_0000 <= b <= 0x7fff_ffff_ffff_ffff,
    ;
}

/// a·b computed without loss.
fn wide_product(a: i64, b: i64) -> (p: i128)
    ensures
        p == a * b,
{
    proof {
        product_bound(a, b);
    }
    (a as i128) * (b as i128)
}

impl Vec3<i64> {
    /// The zero vector.
    pub fn zero() -> (v: Self)
        ensures
            v@ == Triple::zero(),
    {
        Vec3 { x: 0, y: 0, z: 0 }
    }

    /// Component-wise negation.
    pub fn negate(&self) -> (v: Self)
        requires
            self@.negate().representable(),
        ensures
            v@ == self@.negate(),
    {
        Vec3 { x: -self.x, y: -self.y, z: -self.z }
    }

    /// Component-wise sum, as a new value.
    pub fn add(&self, other: &Self) -> (v: Self)
        requires
            self@.add(other@).representable(),
        ensures
            v@ == self@.add(other@),
    {
        Vec3 { x: self.x + other.x, y: self.y + other.y, z: self.z + other.z }
    }

    /// Component-wise difference, as a new value.
    pub fn subtract(&self, other: &Self) -> (v: Self)
        requires
            self@.subtract(other@).representable(),
        ensures
            v@ == self@.subtract(other@),
    {
        Vec3 { x: self.x - other.x, y: self.y - other.y, z: self.z - other.z }
    }

    /// Adds `other` into this vector: the one operation that changes its operand.
    pub fn add_in_place(&mut self, other: &Self)
        requires
            old(self)@.add(other@).representable(),
        ensures
            final(self)@ == old(self)@.add(other@),
    {
        self.x = self.x + other.x;
        self.y = self.y + other.y;
        self.z = self.z + other.z;
    }

    /// Component-wise product, as used to blend colours.
    pub fn multiply_elementwise(&self, other: &Self) -> (v: Self)
        requires
            self@.multiply_elementwise(other@).representable(),
        ensures
            v@ == self@.multiply_elementwise(other@),
    {
        Vec3 { x: self.x * other.x, y: self.y * other.y, z: self.z * other.z }
    }

    /// Every component multiplied by `s`.
    pub fn scale(&self, s: i64) -> (v: Self)
        requires
            self@.scale(s as int).representable(),
        ensures
            v@ == self@.scale(s as int),
    {
        Vec3 { x: self.x * s, y: self.y * s, z: self.z * s }
    }

    /// The inner product of this vector with `other`.
    pub fn dot(&self, other: &Self) -> (d: i64)
        requires
            fits(self@.dot(other@)),
        ensures
            d == self@.dot(other@),
    {
        let px: i128 = wide_product(self.x, other.x);
        let py: i128 = wide_product(self.y, other.y);
        let pz: i128 = wide_product(self.z, other.z);
        proof {
            product_bound(self.x, other.x);
            product_bound(self.y, other.y);
            product_bound(self.z, other.z);
        }
        let sum: i128 = px + py + pz;
        sum as i64
    }

    /// The cross product of this vector with `other`.
    pub fn cross(&self, other: &Self) -> (v: Self)
        requires
            self@.cross(other@).representable(),
        ensures
            v@ == self@.cross(other@),
    {
        let x: i128 = wide_product(self.y, other.z) - wide_product(self.z, other.y);
        let y: i128 = wide_product(self.z, other.x) - wide_product(self.x, other.z);
        let z: i128 = wide_product(self.x, other.y) - wide_product(self.y, other.x);
        Vec3 { x: x as i64, y: y as i64, z: z as i64 }
    }

    /// The sum of the squares of this vector's own three components.
    pub fn length_squared(&self) -> (d: i64)
        requires
            fits(self@.length_squared()),
        ensures
            d == self@.length_squared(),
    {
        self.dot(self)
    }
}

/// `s` times `v`: scaling with the scalar written first.
pub fn scalar_times(s: i64, v: &Vec3<i64>) -> (r: Vec3<i64>)
    requires
        v@.scale(s as int).representable(),
    ensures
        r@ == v@.scale(s as int),
{
    v.scale(s)
}

} // verus!
