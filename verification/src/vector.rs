//! Three-component vectors over [`Scalar`]: points, directions and colours.

use crate::scalar::Scalar;
use core::cmp::Ordering;
use core::ops::Neg;
use vstd::prelude::*;

verus! {

/// A vector of three binary32 components.
#[derive(Clone, Copy, Debug)]
pub struct Vec3D {
    pub x: Scalar,
    pub y: Scalar,
    pub z: Scalar,
}

impl Vec3D {
    /// The vector with every sign bit turned.
    pub open spec fn negated(self) -> Vec3D {
        Vec3D { x: self.x.neg_spec(), y: self.y.neg_spec(), z: self.z.neg_spec() }
    }

    /// Every component lies within `EPSILON` of zero.
    pub open spec fn is_near_zero_spec(&self) -> bool {
        &&& self.x.abs_spec().le_spec(Scalar::epsilon())
        &&& self.y.abs_spec().le_spec(Scalar::epsilon())
        &&& self.z.abs_spec().le_spec(Scalar::epsilon())
    }

    #[verifier::allow_in_spec]
    pub fn new(x: Scalar, y: Scalar, z: Scalar) -> Vec3D
        returns
            (Vec3D { x, y, z }),
    {
        Vec3D { x, y, z }
    }

    /// `(0, 0, 0)`
    #[verifier::allow_in_spec]
    pub fn zero() -> Vec3D
        returns
            (Vec3D { x: Scalar::zero(), y: Scalar::zero(), z: Scalar::zero() }),
    {
        Vec3D { x: Scalar::zero(), y: Scalar::zero(), z: Scalar::zero() }
    }

    /// `(1, 1, 1)`
    #[verifier::allow_in_spec]
    pub fn one() -> Vec3D
        returns
            (Vec3D { x: Scalar::one(), y: Scalar::one(), z: Scalar::one() }),
    {
        Vec3D { x: Scalar::one(), y: Scalar::one(), z: Scalar::one() }
    }

    /// `(1, 0, 0)`
    #[verifier::allow_in_spec]
    pub fn x_unit() -> Vec3D
        returns
            (Vec3D { x: Scalar::one(), y: Scalar::zero(), z: Scalar::zero() }),
    {
        Vec3D { x: Scalar::one(), y: Scalar::zero(), z: Scalar::zero() }
    }

    /// `(0, 1, 0)`
    #[verifier::allow_in_spec]
    pub fn y_unit() -> Vec3D
        returns
            (Vec3D { x: Scalar::zero(), y: Scalar::one(), z: Scalar::zero() }),
    {
        Vec3D { x: Scalar::zero(), y: Scalar::one(), z: Scalar::zero() }
    }

    /// `(0, 0, 1)`
    #[verifier::allow_in_spec]
    pub fn z_unit() -> Vec3D
        returns
            (Vec3D { x: Scalar::zero(), y: Scalar::zero(), z: Scalar::one() }),
    {
        Vec3D { x: Scalar::zero(), y: Scalar::zero(), z: Scalar::one() }
    }

    /// One round of rejection sampling in the unit ball: `candidate`, drawn
    /// from the cube `[-1, 1]^3`, is kept when its squared length `mag2` is
    /// below one.
    pub fn random_in_unit_sphere(candidate: Vec3D, mag2: Scalar) -> (kept: Option<Vec3D>)
        ensures
            mag2.lt_spec(Scalar::one()) ==> kept == Some(candidate),
            !mag2.lt_spec(Scalar::one()) ==> kept.is_none(),
    {
        if mag2.lt(Scalar::one()) {
            Some(candidate)
        } else {
            None
        }
    }

    /// One round of rejection sampling in the unit disc of the plane
    /// `z = 0`: the point `(x, y, 0)`, drawn from the square `[-1, 1]^2`, is
    /// kept when its squared length `mag2` is below one.
    pub fn random_in_unit_disc(x: Scalar, y: Scalar, mag2: Scalar) -> (kept: Option<Vec3D>)
        ensures
            mag2.lt_spec(Scalar::one()) ==> kept == Some(Vec3D::new(x, y, Scalar::zero())),
            !mag2.lt_spec(Scalar::one()) ==> kept.is_none(),
    {
        if mag2.lt(Scalar::one()) {
            Some(Vec3D { x, y, z: Scalar::zero() })
        } else {
            None
        }
    }

    /// Turns a unit vector into the hemisphere around a normal. `facing` is
    /// the dot product of `on_unit_sphere` with that normal: the vector is
    /// kept where it is positive, and negated otherwise.
    pub fn random_on_hemisphere(on_unit_sphere: Vec3D, facing: Scalar) -> (oriented: Vec3D)
        ensures
            facing.gt_spec(Scalar::zero()) ==> oriented == on_unit_sphere,
            !facing.gt_spec(Scalar::zero()) ==> oriented == on_unit_sphere.negated(),
    {
        if facing.gt(Scalar::zero()) {
            on_unit_sphere
        } else {
            on_unit_sphere.neg()
        }
    }

    /// Whether the vector is too short to serve as a direction: every
    /// component within `EPSILON` of zero. A NaN component is not.
    #[verifier::when_used_as_spec(is_near_zero_spec)]
    pub fn is_near_zero(&self) -> (near: bool)
        ensures
            near == self.is_near_zero_spec(),
    {
        self.x.abs().le(Scalar::epsilon()) && self.y.abs().le(Scalar::epsilon())
            && self.z.abs().le(Scalar::epsilon())
    }
}

impl PartialEq for Vec3D {
    /// Equality component by component, as numbers: a vector with a NaN
    /// component equals nothing, itself included.
    fn eq(&self, other: &Vec3D) -> (r: bool) {
        self.x.same_value(other.x) && self.y.same_value(other.y) && self.z.same_value(other.z)
    }
}

impl vstd::std_specs::cmp::PartialEqSpecImpl for Vec3D {
    open spec fn obeys_eq_spec() -> bool {
        true
    }

    open spec fn eq_spec(&self, other: &Vec3D) -> bool {
        self.x.same_value_spec(other.x) && self.y.same_value_spec(other.y)
            && self.z.same_value_spec(other.z)
    }
}

/// How two numbers compare; nothing where either is NaN.
pub open spec fn order_of(a: Scalar, b: Scalar) -> Option<Ordering> {
    if a.lt_spec(b) {
        Some(Ordering::Less)
    } else if a.same_value_spec(b) {
        Some(Ordering::Equal)
    } else if a.gt_spec(b) {
        Some(Ordering::Greater)
    } else {
        None
    }
}

fn order(a: Scalar, b: Scalar) -> (r: Option<Ordering>)
    ensures
        r == order_of(a, b),
{
    if a.lt(b) {
        Some(Ordering::Less)
    } else if a.same_value(b) {
        Some(Ordering::Equal)
    } else if a.gt(b) {
        Some(Ordering::Greater)
    } else {
        None
    }
}

impl PartialOrd for Vec3D {
    /// The order of the first components that differ, `x` before `y` before
    /// `z`; nothing where a NaN is met before that.
    fn partial_cmp(&self, other: &Vec3D) -> (r: Option<Ordering>) {
        match order(self.x, other.x) {
            Some(Ordering::Equal) => match order(self.y, other.y) {
                Some(Ordering::Equal) => order(self.z, other.z),
                decided => decided,
            },
            decided => decided,
        }
    }
}

impl vstd::std_specs::cmp::PartialOrdSpecImpl for Vec3D {
    open spec fn obeys_partial_cmp_spec() -> bool {
        true
    }

    open spec fn partial_cmp_spec(&self, other: &Vec3D) -> Option<Ordering> {
        match order_of(self.x, other.x) {
            Some(Ordering::Equal) => match order_of(self.y, other.y) {
                Some(Ordering::Equal) => order_of(self.z, other.z),
                decided => decided,
            },
            decided => decided,
        }
    }
}

impl core::ops::Neg for Vec3D {
    type Output = Vec3D;

    fn neg(self) -> (r: Vec3D)
    {
        Vec3D { x: self.x.neg(), y: self.y.neg(), z: self.z.neg() }
    }
}

impl vstd::std_specs::ops::NegSpecImpl for Vec3D {
    open spec fn obeys_neg_spec() -> bool {
        true
    }

    open spec fn neg_req(self) -> bool {
        true
    }

    open spec fn neg_spec(self) -> Vec3D {
        self.negated()
    }
}

} // verus!
