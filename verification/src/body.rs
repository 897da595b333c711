//! Intersectable bodies and the record of a hit.

pub mod bodies;
pub mod body_list;

use crate::body::bodies::{Plane, Sphere};
use crate::interval::Interval;
use crate::material::materials::Base;
use crate::material::Material;
use crate::scalar::Scalar;
use crate::vector::Vec3D;
use core::ops::Neg;
use vstd::prelude::*;

verus! {

/// Where a ray meets a surface.
#[derive(Clone, Copy, Debug)]
pub struct HitRecord {
    pub point: Vec3D,
    /// The surface normal, turned against the incoming ray.
    pub normal: Vec3D,
    pub material: Material,
    /// The ray parameter of the hit.
    pub t: Scalar,
    /// Whether the ray struck the outward side of the surface.
    pub front_face: bool,
}

/// One root of a ray against a body, with what the host derived from it.
#[derive(Clone, Copy, Debug)]
pub struct Contact {
    /// The ray parameter of the root.
    pub t: Scalar,
    /// The point of the ray at `t`.
    pub point: Vec3D,
    /// Spheres: the unit normal of the surface at `point`, pointing
    /// outwards. A plane has its own.
    pub outward_normal: Vec3D,
    /// The dot product of the ray's direction with the outward normal.
    pub facing: Scalar,
}

/// The numbers of one ray against one body, as the host computed them. A
/// body reads the fields of its own shape and no others.
#[derive(Clone, Copy, Debug)]
pub struct Probe {
    /// Spheres: the discriminant of the quadratic in the ray parameter.
    pub discriminant: Scalar,
    /// Planes: the dot product of the plane's normal with the ray's
    /// direction.
    pub denominator: Scalar,
    /// The contact at the smaller root; for a plane, at its one root.
    pub near: Contact,
    /// Spheres: the contact at the larger root.
    pub far: Contact,
}

impl HitRecord {
    /// The record with its normal set from an outward normal: kept where the
    /// ray runs against it (`facing` below zero), and negated otherwise.
    pub open spec fn with_face_normal(self, facing: Scalar, outward_normal: Vec3D) -> HitRecord {
        HitRecord {
            front_face: facing.lt_spec(Scalar::zero()),
            normal: if facing.lt_spec(Scalar::zero()) {
                outward_normal
            } else {
                outward_normal.negated()
            },
            ..self
        }
    }

    /// The record after a test: that of the hit, or this one where nothing
    /// was hit.
    pub open spec fn overwritten_by(self, hit: Option<HitRecord>) -> HitRecord {
        match hit {
            Some(record) => record,
            None => self,
        }
    }

    /// The record of a contact on a surface of the given material.
    pub open spec fn of_contact(contact: Contact, outward_normal: Vec3D, material: Material)
        -> HitRecord {
        HitRecord {
            point: contact.point,
            normal: if contact.facing.lt_spec(Scalar::zero()) {
                outward_normal
            } else {
                outward_normal.negated()
            },
            material,
            t: contact.t,
            front_face: contact.facing.lt_spec(Scalar::zero()),
        }
    }

    /// A record at the origin, with a zero normal, the placeholder material,
    /// parameter zero, and the back face.
    pub fn new() -> (record: HitRecord)
        ensures
            record == (HitRecord {
                point: Vec3D::zero(),
                normal: Vec3D::zero(),
                material: Material::Base(Base {  }),
                t: Scalar::zero(),
                front_face: false,
            }),
    {
        HitRecord {
            point: Vec3D::zero(),
            normal: Vec3D::zero(),
            material: Material::Base(Base {  }),
            t: Scalar::zero(),
            front_face: false,
        }
    }

    /// Sets the face and the normal. `facing` is the dot product of the
    /// ray's direction with `outward_normal`, which is of unit length.
    pub fn set_face_normal(&mut self, facing: Scalar, outward_normal: &Vec3D)
        ensures
            *final(self) == old(self).with_face_normal(facing, *outward_normal),
    {
        self.front_face = facing.lt(Scalar::zero());
        self.normal = if self.front_face {
            *outward_normal
        } else {
            outward_normal.neg()
        };
    }
}

/// The closed family of primitives.
#[derive(Clone, Copy, Debug)]
pub enum Body {
    Sphere(Sphere),
    Plane(Plane),
}

impl Body {
    /// The hit of the primitive's own shape.
    pub open spec fn hit_spec(&self, probe: &Probe, t: Interval) -> Option<HitRecord> {
        match *self {
            Body::Sphere(s) => s.hit_spec(probe, t),
            Body::Plane(p) => p.hit_spec(probe, t),
        }
    }

    /// The roots that the primitive reads are numbers, and of a sphere's two
    /// the nearer is not above the farther.
    pub open spec fn orderly(&self, probe: &Probe) -> bool {
        match *self {
            Body::Sphere(_) => probe.discriminant.lt_spec(Scalar::zero()) || probe.near.t.le_spec(
                probe.far.t,
            ),
            Body::Plane(_) => probe.denominator.abs_spec().lt_spec(Scalar::epsilon())
                || !probe.near.t.is_nan_spec(),
        }
    }

    /// Tests the primitive against a ray within the window `t`. On a hit
    /// the record is overwritten; otherwise it is left as it is.
    pub fn hit(&self, probe: &Probe, t: Interval, hit_record: &mut HitRecord) -> (hit: bool)
        ensures
            hit == self.hit_spec(probe, t).is_some(),
            *final(hit_record) == old(hit_record).overwritten_by(self.hit_spec(probe, t)),
    {
        match self {
            Body::Sphere(s) => s.hit(probe, t, hit_record),
            Body::Plane(p) => p.hit(probe, t, hit_record),
        }
    }
}

/// Shortening the window from above never changes which hit a primitive
/// reports, only whether it reports it: the hit of the full window where
/// that still lies within the shorter one, and none otherwise.
pub proof fn lemma_hit_in_shorter_window(body: Body, probe: Probe, t: Interval, closest: Scalar)
    requires
        body.orderly(&probe),
        t.ordered(),
        t.contains_spec(closest),
    ensures
        body.hit_spec(&probe, t) is None ==> body.hit_spec(&probe, t.ending_at(closest)) is None,
        body.hit_spec(&probe, t) is Some ==> t.contains_spec(body.hit_spec(&probe, t).unwrap().t),
        body.hit_spec(&probe, t) is Some && body.hit_spec(&probe, t).unwrap().t.le_spec(closest)
            ==> body.hit_spec(&probe, t.ending_at(closest)) == body.hit_spec(&probe, t),
        body.hit_spec(&probe, t) is Some && !body.hit_spec(&probe, t).unwrap().t.le_spec(closest)
            ==> body.hit_spec(&probe, t.ending_at(closest)) is None,
{
}

} // verus!
