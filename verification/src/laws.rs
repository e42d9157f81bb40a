//! The laws of vector algebra, proved of the exact operations.

use vstd::prelude::*;
use crate::exact::Triple;
use crate::vec3::Vec3;

verus! {

/// Addition does not depend on the order of its operands.
pub proof fn add_commutes(a: Triple, b: Triple)
    ensures
        a.add(b) == b.add(a),
{
}

/// Addition does not depend on how three operands are grouped.
pub proof fn add_associates(a: Triple, b: Triple, c: Triple)
    ensures
        a.add(b).add(c) == a.add(b.add(c)),
{
}

/// A vector and its negation sum to zero.
pub proof fn add_negation_is_zero(a: Triple)
    ensures
        a.add(a.negate()) == Triple::zero(),
{
}

/// Subtracting is adding the negation.
pub proof fn subtract_is_add_negation(a: Triple, b: Triple)
    ensures
        a.subtract(b) == a.add(b.negate()),
{
}

/// Scaling by `s` and then by `t` is scaling by their product.
pub proof fn scale_composes(a: Triple, s: int, t: int)
    ensures
        a.scale(s).scale(t) == a.scale(s * t),
{
    assert((a.x * s) * t == a.x * (s * t)) by (nonlinear_arith);
    assert((a.y * s) * t == a.y * (s * t)) by (nonlinear_arith);
    assert((a.z * s) * t == a.z * (s * t)) by (nonlinear_arith);
}

/// Swapping the operands of a cross product negates it.
pub proof fn cross_anticommutes(a: Triple, b: Triple)
    ensures
        a.cross(b) == b.cross(a).negate(),
{
    assert(a.y * b.z - a.z * b.y == -(b.y * a.z - b.z * a.y)) by (nonlinear_arith);
    assert(a.z * b.x - a.x * b.z == -(b.z * a.x - b.x * a.z)) by (nonlinear_arith);
    assert(a.x * b.y - a.y * b.x == -(b.x * a.y - b.y * a.x)) by (nonlinear_arith);
}

/// The cross product of a vector with itself is zero.
pub proof fn cross_with_self_is_zero(a: Triple)
    ensures
        a.cross(a) == Triple::zero(),
{
    assert(a.y * a.z - a.z * a.y == 0) by (nonlinear_arith);
    assert(a.z * a.x - a.x * a.z == 0) by (nonlinear_arith);
    assert(a.x * a.y - a.y * a.x == 0) by (nonlinear_arith);
}

/// The cross product of a vector with any multiple of it is zero: parallel
/// vectors, the zero vector among them, span no area.
pub proof fn cross_with_multiple_is_zero(a: Triple, s: int)
    ensures
        a.cross(a.scale(s)) == Triple::zero(),
{
    assert(a.y * (a.z * s) - a.z * (a.y * s) == 0) by (nonlinear_arith);
    assert(a.z * (a.x * s) - a.x * (a.z * s) == 0) by (nonlinear_arith);
    assert(a.x * (a.y * s) - a.y * (a.x * s) == 0) by (nonlinear_arith);
}

/// The inner product does not depend on the order of its operands.
pub proof fn dot_symmetric(a: Triple, b: Triple)
    ensures
        a.dot(b) == b.dot(a),
{
    assert(a.x * b.x == b.x * a.x) by (nonlinear_arith);
    assert(a.y * b.y == b.y * a.y) by (nonlinear_arith);
    assert(a.z * b.z == b.z * a.z) by (nonlinear_arith);
}

/// The squared length of a vector is its inner product with itself.
pub proof fn length_squared_is_self_dot(a: Triple)
    ensures
        a.length_squared() == a.dot(a),
{
}

/// Two stored vectors that stand for the same exact vector are the same value.
pub proof fn same_view_same_vector(a: Vec3<i64>, b: Vec3<i64>)
    requires
        a@ == b@,
    ensures
        a == b,
{
}

} // verus!
