//! The five material models.

use crate::body::HitRecord;
use crate::material::{ScatterSample, Scattering};
use crate::ray::Ray;
use crate::scalar::Scalar;
use crate::vector::Vec3D;
use vstd::prelude::*;

verus! {

/// The placeholder material of a fresh hit record. It reports a scattering
/// and writes nothing.
#[derive(Clone, Copy, Debug)]
pub struct Base {}

/// A diffuse surface.
#[derive(Clone, Copy, Debug)]
pub struct Lambertian {
    pub albedo: Vec3D,
}

/// A mirror, blurred by `fuzz`.
#[derive(Clone, Copy, Debug)]
pub struct Metal {
    pub albedo: Vec3D,
    pub fuzz: Scalar,
}

/// A transparent medium.
#[derive(Clone, Copy, Debug)]
pub struct Dielectric {
    pub refraction_index: Scalar,
}

/// An emitter. It scatters nothing.
#[derive(Clone, Copy, Debug)]
pub struct Light {
    pub color: Vec3D,
}

impl Base {
    pub open spec fn scatter_spec(
        &self,
        sample: &ScatterSample,
        ray_out: Ray,
        attenuation: Vec3D,
        hit_record: &HitRecord,
    ) -> Scattering {
        Scattering { scattered: true, ray_out, attenuation }
    }

    /// Reports a scattering and leaves `ray_out` and `attenuation` as they
    /// are.
    pub fn scatter(
        &self,
        sample: &ScatterSample,
        ray_out: &mut Ray,
        attenuation: &mut Vec3D,
        hit_record: &HitRecord,
    ) -> (scattered: bool)
        ensures
            (Scattering { scattered, ray_out: *final(ray_out), attenuation: *final(attenuation) })
                == self.scatter_spec(sample, *old(ray_out), *old(attenuation), hit_record),
    {
        true
    }

    pub fn emit(&self) -> (emitted: Vec3D)
        ensures
            emitted == Vec3D::zero(),
    {
        Vec3D::zero()
    }
}

impl Lambertian {
    /// The direction a diffuse surface sends the ray in: the sampled
    /// direction, or the bare normal where the sample is too short.
    pub open spec fn direction(sample: &ScatterSample, hit_record: &HitRecord) -> Vec3D {
        if sample.diffuse.is_near_zero_spec() {
            hit_record.normal
        } else {
            sample.diffuse
        }
    }

    pub open spec fn scatter_spec(
        &self,
        sample: &ScatterSample,
        ray_out: Ray,
        attenuation: Vec3D,
        hit_record: &HitRecord,
    ) -> Scattering {
        Scattering {
            scattered: true,
            ray_out: Ray {
                origin: hit_record.point,
                direction: Lambertian::direction(sample, hit_record),
            },
            attenuation: self.albedo,
        }
    }

    /// Always scatters: from the hit point along `sample.diffuse`, or along
    /// the hit normal where that sample is near zero, attenuated by the
    /// albedo.
    pub fn scatter(
        &self,
        sample: &ScatterSample,
        ray_out: &mut Ray,
        attenuation: &mut Vec3D,
        hit_record: &HitRecord,
    ) -> (scattered: bool)
        ensures
            (Scattering { scattered, ray_out: *final(ray_out), attenuation: *final(attenuation) })
                == self.scatter_spec(sample, *old(ray_out), *old(attenuation), hit_record),
    {
        let mut scatter_direction = sample.diffuse;
        if scatter_direction.is_near_zero() {
            scatter_direction = hit_record.normal;
        }
        *ray_out = Ray::new(&hit_record.point, &scatter_direction);
        *attenuation = self.albedo;
        true
    }

    pub fn emit(&self) -> (emitted: Vec3D)
        ensures
            emitted == Vec3D::zero(),
    {
        Vec3D::zero()
    }
}

impl Metal {
    pub open spec fn scatter_spec(
        &self,
        sample: &ScatterSample,
        ray_out: Ray,
        attenuation: Vec3D,
        hit_record: &HitRecord,
    ) -> Scattering {
        Scattering {
            scattered: sample.fuzzed_facing.gt_spec(Scalar::zero()),
            ray_out: Ray { origin: hit_record.point, direction: sample.fuzzed },
            attenuation: self.albedo,
        }
    }

    /// Sends the ray from the hit point along `sample.fuzzed`, attenuated by
    /// the albedo. The ray goes on only where that direction still points
    /// away from the surface: where `sample.fuzzed_facing` is positive.
    pub fn scatter(
        &self,
        sample: &ScatterSample,
        ray_out: &mut Ray,
        attenuation: &mut Vec3D,
        hit_record: &HitRecord,
    ) -> (scattered: bool)
        ensures
            (Scattering { scattered, ray_out: *final(ray_out), attenuation: *final(attenuation) })
                == self.scatter_spec(sample, *old(ray_out), *old(attenuation), hit_record),
    {
        *ray_out = Ray::new(&hit_record.point, &sample.fuzzed);
        *attenuation = self.albedo;
        sample.fuzzed_facing.gt(Scalar::zero())
    }

    pub fn emit(&self) -> (emitted: Vec3D)
        ensures
            emitted == Vec3D::zero(),
    {
        Vec3D::zero()
    }
}

impl Dielectric {
    /// Total internal reflection: the refraction ratio times the sine of
    /// the angle of incidence is above one, so that no refracted ray exists.
    pub open spec fn cannot_refract_spec(sine_ratio: Scalar) -> bool {
        sine_ratio.gt_spec(Scalar::one())
    }

    /// Whether the surface mirrors the ray: refraction is impossible, or
    /// the reflectance exceeds the draw.
    pub open spec fn reflects(sample: &ScatterSample) -> bool {
        Dielectric::cannot_refract_spec(sample.sine_ratio) || sample.reflectance.gt_spec(
            sample.draw,
        )
    }

    pub open spec fn scatter_spec(
        &self,
        sample: &ScatterSample,
        ray_out: Ray,
        attenuation: Vec3D,
        hit_record: &HitRecord,
    ) -> Scattering {
        Scattering {
            scattered: true,
            ray_out: Ray {
                origin: hit_record.point,
                direction: if Dielectric::reflects(sample) {
                    sample.reflected
                } else {
                    sample.refracted
                },
            },
            attenuation: Vec3D::one(),
        }
    }

    /// The ratio of refractive indices that a ray meets: `reciprocal`, which
    /// is one over the index, on entering through the front face, and the
    /// index itself on leaving.
    pub fn refraction_ratio(&self, front_face: bool, reciprocal: Scalar) -> (ratio: Scalar)
        ensures
            front_face ==> ratio == reciprocal,
            !front_face ==> ratio == self.refraction_index,
    {
        if front_face {
            reciprocal
        } else {
            self.refraction_index
        }
    }

    /// The cosine of the angle of incidence, from the dot product of the
    /// unit direction with the hit normal: its negation, capped at one.
    pub fn cos_theta(dot: Scalar) -> (cosine: Scalar)
        ensures
            cosine == dot.neg_spec().min_spec(Scalar::one()),
    {
        dot.neg().min(Scalar::one())
    }

    /// Whether the ray is reflected whatever the draw, so that none need be
    /// taken.
    #[verifier::when_used_as_spec(cannot_refract_spec)]
    pub fn cannot_refract(sine_ratio: Scalar) -> (total: bool)
        ensures
            total == Dielectric::cannot_refract_spec(sine_ratio),
    {
        sine_ratio.gt(Scalar::one())
    }

    /// Always scatters, without tint: mirrored where `sample.sine_ratio`
    /// is above one or `sample.reflectance` above `sample.draw`, and
    /// refracted otherwise.
    pub fn scatter(
        &self,
        sample: &ScatterSample,
        ray_out: &mut Ray,
        attenuation: &mut Vec3D,
        hit_record: &HitRecord,
    ) -> (scattered: bool)
        ensures
            (Scattering { scattered, ray_out: *final(ray_out), attenuation: *final(attenuation) })
                == self.scatter_spec(sample, *old(ray_out), *old(attenuation), hit_record),
    {
        *attenuation = Vec3D::one();
        let direction = if Dielectric::cannot_refract(sample.sine_ratio)
            || sample.reflectance.gt(sample.draw) {
            sample.reflected
        } else {
            sample.refracted
        };
        *ray_out = Ray::new(&hit_record.point, &direction);
        true
    }

    pub fn emit(&self) -> (emitted: Vec3D)
        ensures
            emitted == Vec3D::zero(),
    {
        Vec3D::zero()
    }
}

impl Light {
    pub open spec fn scatter_spec(
        &self,
        sample: &ScatterSample,
        ray_out: Ray,
        attenuation: Vec3D,
        hit_record: &HitRecord,
    ) -> Scattering {
        Scattering { scattered: false, ray_out, attenuation }
    }

    /// Never scatters, and leaves `ray_out` and `attenuation` as they are.
    pub fn scatter(
        &self,
        sample: &ScatterSample,
        ray_out: &mut Ray,
        attenuation: &mut Vec3D,
        hit_record: &HitRecord,
    ) -> (scattered: bool)
        ensures
            (Scattering { scattered, ray_out: *final(ray_out), attenuation: *final(attenuation) })
                == self.scatter_spec(sample, *old(ray_out), *old(attenuation), hit_record),
    {
        false
    }

    /// The light's colour.
    pub fn emit(&self) -> (emitted: Vec3D)
        ensures
            emitted == self.color,
    {
        self.color
    }
}

} // verus!
