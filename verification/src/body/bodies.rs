//! Spheres and planes.

use crate::body::{Contact, HitRecord, Probe};
use crate::interval::Interval;
use crate::material::Material;
use crate::scalar::Scalar;
use crate::vector::Vec3D;
use vstd::prelude::*;

verus! {

/// A sphere. The host reads `center` and `radius` for the probe of a ray.
#[derive(Clone, Copy, Debug)]
pub struct Sphere {
    pub center: Vec3D,
    pub radius: Scalar,
    pub material: Material,
}

/// The plane through `center` with the unit normal `normal`.
#[derive(Clone, Copy, Debug)]
pub struct Plane {
    pub center: Vec3D,
    pub normal: Vec3D,
    pub material: Material,
}

impl Sphere {
    /// The contact that the window accepts: none where the discriminant is
    /// negative; else the nearer root unless the window surrounds it; else
    /// the farther root unless the window surrounds that too.
    pub open spec fn accepted(probe: &Probe, t: Interval) -> Option<Contact> {
        if probe.discriminant.lt_spec(Scalar::zero()) {
            None
        } else if !t.surrounds_spec(probe.near.t) {
            Some(probe.near)
        } else if !t.surrounds_spec(probe.far.t) {
            Some(probe.far)
        } else {
            None
        }
    }

    pub open spec fn hit_spec(&self, probe: &Probe, t: Interval) -> Option<HitRecord> {
        match Sphere::accepted(probe, t) {
            Some(contact) => Some(
                HitRecord::of_contact(contact, contact.outward_normal, self.material),
            ),
            None => None,
        }
    }

    /// Tests the sphere against a ray within the window `t`. There is no
    /// hit where the discriminant is negative or the window surrounds both
    /// roots. Otherwise the record becomes that of the nearer root, or of
    /// the farther where the window surrounds the nearer: its point and
    /// parameter, the outward normal turned against the ray, and the
    /// sphere's material.
    pub fn hit(&self, probe: &Probe, t: Interval, hit_record: &mut HitRecord) -> (hit: bool)
        ensures
            hit == self.hit_spec(probe, t).is_some(),
            *final(hit_record) == old(hit_record).overwritten_by(self.hit_spec(probe, t)),
    {
        if probe.discriminant.lt(Scalar::zero()) {
            return false;
        }
        let mut contact = probe.near;
        if t.surrounds(contact.t) {
            contact = probe.far;
            if t.surrounds(contact.t) {
                return false;
            }
        }
        hit_record.t = contact.t;
        hit_record.point = contact.point;
        hit_record.set_face_normal(contact.facing, &contact.outward_normal);
        hit_record.material = self.material;
        true
    }
}

impl Plane {
    /// The contact that the window accepts: none where the ray runs parallel
    /// to the plane (the denominator within `EPSILON` of zero) or the window
    /// surrounds the root.
    pub open spec fn accepted(probe: &Probe, t: Interval) -> Option<Contact> {
        if probe.denominator.abs_spec().lt_spec(Scalar::epsilon()) {
            None
        } else if t.surrounds_spec(probe.near.t) {
            None
        } else {
            Some(probe.near)
        }
    }

    pub open spec fn hit_spec(&self, probe: &Probe, t: Interval) -> Option<HitRecord> {
        match Plane::accepted(probe, t) {
            Some(contact) => Some(HitRecord::of_contact(contact, self.normal, self.material)),
            None => None,
        }
    }

    /// Tests the plane against a ray within the window `t`. There is no hit
    /// where the ray is parallel to the plane or the window surrounds the
    /// root. Otherwise the record becomes that of the root: its point and
    /// parameter, the plane's normal turned against the ray, and the
    /// plane's material.
    pub fn hit(&self, probe: &Probe, t: Interval, hit_record: &mut HitRecord) -> (hit: bool)
        ensures
            hit == self.hit_spec(probe, t).is_some(),
            *final(hit_record) == old(hit_record).overwritten_by(self.hit_spec(probe, t)),
    {
        if probe.denominator.abs().lt(Scalar::epsilon()) {
            return false;
        }
        let contact = probe.near;
        if t.surrounds(contact.t) {
            return false;
        }
        hit_record.t = contact.t;
        hit_record.point = contact.point;
        hit_record.set_face_normal(contact.facing, &self.normal);
        hit_record.material = self.material;
        true
    }
}

} // verus!
