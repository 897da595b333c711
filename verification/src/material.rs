//! Surface materials: how a hit turns an incoming ray into an outgoing one.

pub mod materials;

use crate::body::HitRecord;
use crate::material::materials::{Base, Dielectric, Lambertian, Light, Metal};
use crate::ray::Ray;
use crate::scalar::Scalar;
use crate::vector::Vec3D;
use vstd::prelude::*;

verus! {

/// The numbers of one scattering event, as the host computed them from the
/// incoming ray, the hit record and its random source. A material reads the
/// fields of its own model and no others.
#[derive(Clone, Copy, Debug)]
pub struct ScatterSample {
    /// Diffuse surfaces: the hit normal plus a random unit vector.
    pub diffuse: Vec3D,
    /// Metals: the mirrored unit direction plus `fuzz` times a random unit
    /// vector.
    pub fuzzed: Vec3D,
    /// Metals: the dot product of `fuzzed` with the hit normal.
    pub fuzzed_facing: Scalar,
    /// Dielectrics: the refraction ratio times the sine of the angle of
    /// incidence.
    pub sine_ratio: Scalar,
    /// Dielectrics: the Schlick reflectance at the angle of incidence.
    pub reflectance: Scalar,
    /// Dielectrics: a uniform draw from `[0, 1)`.
    pub draw: Scalar,
    /// Dielectrics: the unit direction mirrored about the hit normal.
    pub reflected: Vec3D,
    /// Dielectrics: the unit direction refracted through the surface.
    pub refracted: Vec3D,
}

/// What a scattering leaves behind: whether the ray goes on, and the
/// outgoing ray and the attenuation as they stand afterwards.
pub struct Scattering {
    pub scattered: bool,
    pub ray_out: Ray,
    pub attenuation: Vec3D,
}

/// The closed family of materials.
#[derive(Clone, Copy, Debug)]
pub enum Material {
    Base(Base),
    Lambertian(Lambertian),
    Metal(Metal),
    Dielectric(Dielectric),
    Light(Light),
}

impl Material {
    /// The scattering of the material's own model.
    pub open spec fn scatter_spec(
        &self,
        sample: &ScatterSample,
        ray_out: Ray,
        attenuation: Vec3D,
        hit_record: &HitRecord,
    ) -> Scattering {
        match *self {
            Material::Base(m) => m.scatter_spec(sample, ray_out, attenuation, hit_record),
            Material::Lambertian(m) => m.scatter_spec(sample, ray_out, attenuation, hit_record),
            Material::Metal(m) => m.scatter_spec(sample, ray_out, attenuation, hit_record),
            Material::Dielectric(m) => m.scatter_spec(sample, ray_out, attenuation, hit_record),
            Material::Light(m) => m.scatter_spec(sample, ray_out, attenuation, hit_record),
        }
    }

    /// The radiance the material gives off: the colour of a light, and
    /// black for everything else.
    pub open spec fn emit_spec(&self) -> Vec3D {
        match *self {
            Material::Light(m) => m.color,
            _ => Vec3D::zero(),
        }
    }

    /// Scatters at `hit_record`: writes the outgoing ray and the attenuation
    /// and tells whether the ray goes on.
    pub fn scatter(
        &self,
        sample: &ScatterSample,
        ray_out: &mut Ray,
        attenuation: &mut Vec3D,
        hit_record: &HitRecord,
    ) -> (scattered: bool)
        ensures
            (Scattering { scattered, ray_out: *final(ray_out), attenuation: *final(attenuation) })
                == self.scatter_spec(sample, *old(ray_out), *old(attenuation), hit_record),
    {
        match self {
            Material::Base(m) => m.scatter(sample, ray_out, attenuation, hit_record),
            Material::Lambertian(m) => m.scatter(sample, ray_out, attenuation, hit_record),
            Material::Metal(m) => m.scatter(sample, ray_out, attenuation, hit_record),
            Material::Dielectric(m) => m.scatter(sample, ray_out, attenuation, hit_record),
            Material::Light(m) => m.scatter(sample, ray_out, attenuation, hit_record),
        }
    }

    #[verifier::when_used_as_spec(emit_spec)]
    pub fn emit(&self) -> (emitted: Vec3D)
        ensures
            emitted == self.emit_spec(),
    {
        match self {
            Material::Base(m) => m.emit(),
            Material::Lambertian(m) => m.emit(),
            Material::Metal(m) => m.emit(),
            Material::Dielectric(m) => m.emit(),
            Material::Light(m) => m.emit(),
        }
    }
}

} // verus!
