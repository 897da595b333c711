//! Rays, and the decisions of the recursive colour of a ray.
//!
//! The colour of a ray is `emitted + attenuation * colour(scattered)`, taken
//! to a bounded depth. The host does the arithmetic and the recursion; what
//! happens at each level is decided here, in two steps: [`Ray::color`] finds
//! out whether the ray ends or meets a surface, and [`Ray::shade`] whether
//! the surface sends it on.

use crate::body::body_list::{all_orderly, is_closest, lemma_scan_keeps_closest, BodyList};
use crate::body::{HitRecord, Probe};
use crate::interval::Interval;
use crate::material::ScatterSample;
use crate::scalar::{lemma_rank_orders_as_values, lemma_ranks_of_constants, Scalar};
use crate::vector::Vec3D;
use vstd::prelude::*;

verus! {

/// The depth beyond which a ray is black.
pub const MAX_DEPTH: usize = 50;

/// The pattern of `0.001`, the smallest parameter at which a ray may hit:
/// anything nearer is the surface it has just left.
pub const NEAREST_HIT_BITS: u32 = 0x3a83_126f;

/// The pattern of `0.1`, the red of the background.
pub const BACKGROUND_RED_BITS: u32 = 0x3dcc_cccd;

/// The pattern of `0.2`, the green of the background.
pub const BACKGROUND_GREEN_BITS: u32 = 0x3e4c_cccd;

/// The pattern of `0.7`, the blue of the background.
pub const BACKGROUND_BLUE_BITS: u32 = 0x3f33_3333;

/// The half-line `origin + t * direction`. The direction is not normalised.
#[derive(Clone, Copy, Debug)]
pub struct Ray {
    pub origin: Vec3D,
    pub direction: Vec3D,
}

/// What a ray comes to at one level of the recursion, before any scattering.
#[derive(Clone, Copy, Debug)]
pub enum Traced {
    /// The ray ends here with this colour.
    Color(Vec3D),
    /// The ray meets a surface: the closest hit.
    Surface(HitRecord),
}

/// What a surface makes of the ray that hit it.
#[derive(Clone, Copy, Debug)]
pub enum Shaded {
    /// The path ends at the surface with this colour.
    Color(Vec3D),
    /// The path goes on: its colour is `emitted` plus `attenuation` times,
    /// component by component, the colour of `scattered` one level deeper.
    Bounce { emitted: Vec3D, attenuation: Vec3D, scattered: Ray },
}

impl Ray {
    /// The first step of the colour of a ray at `depth`: black beyond the
    /// depth bound; else the background where the scene is missed within
    /// the window; else the closest surface.
    pub open spec fn color_spec(world: &BodyList, probes: Seq<Probe>, depth: nat) -> Traced {
        if depth > MAX_DEPTH {
            Traced::Color(Vec3D::zero())
        } else {
            match world.hit_spec(probes, Ray::window()) {
                Some(record) => Traced::Surface(record),
                None => Traced::Color(Ray::background()),
            }
        }
    }

    /// The second step: the material's emission alone where it does not
    /// scatter, and a bounce otherwise. The scattering starts from a zero
    /// ray and a zero attenuation.
    pub open spec fn shade_spec(hit_record: &HitRecord, sample: &ScatterSample) -> Shaded {
        let scattering = hit_record.material.scatter_spec(
            sample,
            Ray { origin: Vec3D::zero(), direction: Vec3D::zero() },
            Vec3D::zero(),
            hit_record,
        );
        if scattering.scattered {
            Shaded::Bounce {
                emitted: hit_record.material.emit_spec(),
                attenuation: scattering.attenuation,
                scattered: scattering.ray_out,
            }
        } else {
            Shaded::Color(hit_record.material.emit_spec())
        }
    }

    #[verifier::allow_in_spec]
    pub fn new(origin: &Vec3D, direction: &Vec3D) -> Ray
        returns
            (Ray { origin: *origin, direction: *direction }),
    {
        Ray { origin: *origin, direction: *direction }
    }

    /// The colour of a ray that hits nothing: `(0.1, 0.2, 0.7)`.
    #[verifier::allow_in_spec]
    pub fn background() -> Vec3D
        returns
            (Vec3D {
                x: Scalar { bits: BACKGROUND_RED_BITS },
                y: Scalar { bits: BACKGROUND_GREEN_BITS },
                z: Scalar { bits: BACKGROUND_BLUE_BITS },
            }),
    {
        Vec3D {
            x: Scalar { bits: BACKGROUND_RED_BITS },
            y: Scalar { bits: BACKGROUND_GREEN_BITS },
            z: Scalar { bits: BACKGROUND_BLUE_BITS },
        }
    }

    /// The window in which a ray looks for hits: from `0.001` to infinity.
    #[verifier::allow_in_spec]
    pub fn window() -> Interval
        returns
            (Interval { min: Scalar { bits: NEAREST_HIT_BITS }, max: Scalar::infinity() }),
    {
        Interval { min: Scalar { bits: NEAREST_HIT_BITS }, max: Scalar::infinity() }
    }

    /// The first step of the colour of a ray at `depth`, against the scene
    /// `world` with `probes[i]` the ray's probe of body `i`. Beyond
    /// `MAX_DEPTH` the ray is black, whatever the scene. Else it has the
    /// background colour where it hits nothing within `Ray::window()`, and
    /// otherwise it meets the closest surface.
    pub fn color(world: &BodyList, probes: &Vec<Probe>, depth: usize) -> (traced: Traced)
        ensures
            traced == Ray::color_spec(world, probes@, depth as nat),
    {
        let mut hit_record = HitRecord::new();
        if depth > MAX_DEPTH {
            return Traced::Color(Vec3D::zero());
        }
        if !world.hit(probes, Ray::window(), &mut hit_record) {
            return Traced::Color(Ray::background());
        }
        Traced::Surface(hit_record)
    }

    /// The second step, at the surface of `hit_record`: the path ends with
    /// the material's emission where the material does not scatter, and
    /// goes on along the scattered ray otherwise.
    pub fn shade(hit_record: &HitRecord, sample: &ScatterSample) -> (shaded: Shaded)
        ensures
            shaded == Ray::shade_spec(hit_record, sample),
    {
        let mut scattered = Ray::new(&Vec3D::zero(), &Vec3D::zero());
        let mut attenuation = Vec3D::zero();
        let emitted_color = hit_record.material.emit();
        if !hit_record.material.scatter(sample, &mut scattered, &mut attenuation, hit_record) {
            return Shaded::Color(emitted_color);
        }
        Shaded::Bounce { emitted: emitted_color, attenuation, scattered }
    }
}

/// How many surfaces a path meets that starts with `ray` at `depth`, where
/// the host answers a ray at a depth with the probes `probes_of` and the
/// sample `sample_of`.
pub open spec fn surfaces_met(
    world: &BodyList,
    probes_of: spec_fn(Ray, nat) -> Seq<Probe>,
    sample_of: spec_fn(Ray, nat) -> ScatterSample,
    ray: Ray,
    depth: nat,
) -> nat
    decreases MAX_DEPTH + 1 - depth,
{
    match Ray::color_spec(world, probes_of(ray, depth), depth) {
        Traced::Color(_) => 0,
        Traced::Surface(record) => match Ray::shade_spec(&record, &sample_of(ray, depth)) {
            Shaded::Color(_) => 1,
            Shaded::Bounce { scattered, .. } => 1 + surfaces_met(
                world,
                probes_of,
                sample_of,
                scattered,
                depth + 1,
            ),
        },
    }
}

/// The depth bound ends every path. Whatever the scene and whatever the
/// host answers, a path that starts at `depth` meets at most
/// `MAX_DEPTH + 1 - depth` surfaces: at most 51 from depth zero, and none
/// beyond the bound.
pub proof fn lemma_depth_bound_ends_every_path(
    world: &BodyList,
    probes_of: spec_fn(Ray, nat) -> Seq<Probe>,
    sample_of: spec_fn(Ray, nat) -> ScatterSample,
    ray: Ray,
    depth: nat,
)
    ensures
        depth > MAX_DEPTH ==> surfaces_met(world, probes_of, sample_of, ray, depth) == 0,
        depth <= MAX_DEPTH ==> surfaces_met(world, probes_of, sample_of, ray, depth) <= MAX_DEPTH
            + 1 - depth,
    decreases MAX_DEPTH + 1 - depth,
{
    if depth <= MAX_DEPTH {
        match Ray::color_spec(world, probes_of(ray, depth), depth) {
            Traced::Color(_) => {},
            Traced::Surface(record) => match Ray::shade_spec(&record, &sample_of(ray, depth)) {
                Shaded::Color(_) => {},
                Shaded::Bounce { scattered, .. } => {
                    lemma_depth_bound_ends_every_path(
                        world,
                        probes_of,
                        sample_of,
                        scattered,
                        depth + 1,
                    );
                },
            },
        }
    }
}

/// The window of a ray is ordered: `0.001` lies below infinity.
pub proof fn lemma_window_is_ordered()
    ensures
        Ray::window().ordered(),
{
    let nearest = Scalar { bits: NEAREST_HIT_BITS };
    assert(0x3a83_126fu32 & 0x7fff_ffffu32 == 0x3a83_126fu32) by (bit_vector);
    assert(0x3a83_126fu32 & 0x8000_0000u32 == 0) by (bit_vector);
    lemma_ranks_of_constants();
    lemma_rank_orders_as_values(nearest, Scalar::infinity());
}

/// A ray meets the closest surface. Where the probes are orderly, the
/// surface that `Ray::color` reports is the closest of what the bodies of
/// the scene report on their own within the ray's window, and the ray has the
/// background colour only where none of them reports a hit.
pub proof fn lemma_color_meets_the_closest_surface(
    world: &BodyList,
    probes: Seq<Probe>,
    depth: nat,
)
    requires
        depth <= MAX_DEPTH,
        all_orderly(world@, probes, world.probed(probes)),
    ensures
        Ray::color_spec(world, probes, depth) is Surface ==> is_closest(
            world@,
            probes,
            Ray::window(),
            world.probed(probes),
            Some(Ray::color_spec(world, probes, depth)->Surface_0),
        ),
        Ray::color_spec(world, probes, depth) is Color ==> Ray::color_spec(world, probes, depth)
            == Traced::Color(Ray::background()) && is_closest(
            world@,
            probes,
            Ray::window(),
            world.probed(probes),
            None,
        ),
{
    lemma_window_is_ordered();
    lemma_scan_keeps_closest(world@, probes, Ray::window(), world.probed(probes));
}

/// A light ends the path with its own colour: whatever the sample, a hit on
/// an emitter is shaded with exactly the emitted colour, and nothing is
/// scattered.
pub proof fn lemma_light_shades_to_its_color(hit_record: HitRecord, sample: ScatterSample)
    requires
        hit_record.material is Light,
    ensures
        Ray::shade_spec(&hit_record, &sample) == Shaded::Color(hit_record.material->Light_0.color),
{
}

} // verus!
