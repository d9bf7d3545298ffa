//! Vectors and matrices of [`Scalar`]s. The library reads their components
//! and hands them on; it never computes with them.

use vstd::prelude::*;
use crate::scalar::Scalar;
use crate::primitive::Axis;

verus! {

/// Three numbers: a direction in space, a scale, the coefficients of an
/// attenuation function.
#[derive(Clone, Copy, Debug)]
pub struct Vec3 {
    pub x: Scalar,
    pub y: Scalar,
    pub z: Scalar,
}

/// Four numbers: a homogeneous position (`w` is one) or direction (`w` is
/// zero), or a colour.
#[derive(Clone, Copy, Debug)]
pub struct Vec4 {
    pub x: Scalar,
    pub y: Scalar,
    pub z: Scalar,
    pub w: Scalar,
}

/// A four by four matrix, as its four columns.
#[derive(Clone, Copy, Debug)]
pub struct Mat4 {
    pub c0: Vec4,
    pub c1: Vec4,
    pub c2: Vec4,
    pub c3: Vec4,
}

impl Vec3 {
    /// The vector with the given components.
    pub fn new(x: Scalar, y: Scalar, z: Scalar) -> (r: Vec3)
        ensures
            r == (Vec3 { x, y, z }),
    {
        Vec3 { x, y, z }
    }
}

impl Vec4 {
    /// The vector with the given components.
    pub fn new(x: Scalar, y: Scalar, z: Scalar, w: Scalar) -> (r: Vec4)
        ensures
            r == (Vec4 { x, y, z, w }),
    {
        Vec4 { x, y, z, w }
    }

    /// The component along an axis.
    pub open spec fn along(self, axis: Axis) -> Scalar {
        match axis {
            Axis::X => self.x,
            Axis::Y => self.y,
            Axis::Z => self.z,
        }
    }

    /// Whether each of the four components is a zero.
    pub open spec fn all_zero(self) -> bool {
        self.x.zero() && self.y.zero() && self.z.zero() && self.w.zero()
    }

    /// The component along an axis.
    pub fn component(&self, axis: Axis) -> (r: Scalar)
        ensures
            r == self.along(axis),
    {
        match axis {
            Axis::X => self.x,
            Axis::Y => self.y,
            Axis::Z => self.z,
        }
    }

    /// Whether the vector compares equal to the zero vector: each of the
    /// four components is `0.0` or `-0.0`.
    pub fn is_zero(&self) -> (r: bool)
        ensures
            r == self.all_zero(),
    {
        self.x.is_zero() && self.y.is_zero() && self.z.is_zero() && self.w.is_zero()
    }
}

} // verus!
