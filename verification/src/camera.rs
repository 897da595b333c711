//! The camera's raster and its frame accumulator.
//!
//! The host owns the lens geometry and the pixel buffer. The camera here
//! holds what decides how a frame is sampled and blended: the raster size,
//! the number of samples per pixel, where rays start, and the frame counter.

use crate::ray::Ray;
use crate::scalar::Scalar;
use crate::vector::Vec3D;
use vstd::prelude::*;

verus! {

/// The width of the image in pixels.
pub const IMAGE_WIDTH: usize = 720;

/// The number of rays averaged into a pixel in one frame.
pub const SAMPLES_PER_PIXEL: usize = 100;

/// The number of bytes that a pixel takes in the image: red, green, blue and
/// alpha.
pub const CHANNELS: usize = 4;

/// The raster of the image and the count of the frames blended into it.
pub struct Camera {
    image_width: usize,
    image_height: usize,
    samples_per_pixel: usize,
    center: Vec3D,
    defocus_angle: Scalar,
    frame_count: usize,
}

/// One render pass: with which weights a pixel's new average is blended
/// into what the pixel holds. The weights are `sample_weight / number` for
/// the new average and `history_weight / number` for the old value.
#[derive(Clone, Copy, Debug)]
pub struct Frame {
    /// The count of frames, this one included.
    pub number: usize,
    pub sample_weight: usize,
    pub history_weight: usize,
}

impl Frame {
    /// The frame with the given number and the weights of a running mean:
    /// the new average enters with weight `1 / number`, and the old value
    /// keeps the rest.
    pub open spec fn nth(number: nat) -> Frame {
        Frame {
            number: number as usize,
            sample_weight: 1,
            history_weight: (number - 1) as usize,
        }
    }

    /// The blend of a new average and an old value in exact arithmetic,
    /// rounded down.
    pub open spec fn blend_exact(&self, sample: int, history: int) -> int {
        (self.sample_weight * sample + self.history_weight * history) / (self.number as int)
    }
}

impl Camera {
    #[verifier::type_invariant]
    spec fn well_formed(&self) -> bool {
        self.image_height >= 1 && self.image_width * self.image_height * CHANNELS <= usize::MAX
    }

    pub closed spec fn image_width(&self) -> usize {
        self.image_width
    }

    pub closed spec fn image_height(&self) -> usize {
        self.image_height
    }

    pub closed spec fn samples_per_pixel(&self) -> usize {
        self.samples_per_pixel
    }

    /// The point that rays start from where the lens is not sampled.
    pub closed spec fn center(&self) -> Vec3D {
        self.center
    }

    /// The angle of the defocus cone; at zero and below, the lens is a
    /// point.
    pub closed spec fn defocus_angle(&self) -> Scalar {
        self.defocus_angle
    }

    /// How many frames were rendered.
    pub closed spec fn frame_count(&self) -> usize {
        self.frame_count
    }

    /// Whether rays start from a sample of the defocus disc: not where the
    /// defocus angle is zero or below.
    pub open spec fn samples_defocus_disk_spec(&self) -> bool {
        !self.defocus_angle().le_spec(Scalar::zero())
    }

    /// Where a ray starts: at the sample of the defocus disc where the
    /// disc is sampled and a sample was drawn, and at the centre otherwise.
    pub open spec fn ray_origin(&self, disk_sample: Option<Vec3D>) -> Vec3D {
        match disk_sample {
            Some(point) if self.samples_defocus_disk_spec() => point,
            _ => self.center(),
        }
    }

    /// The number of bytes of the image: `CHANNELS` for every pixel.
    pub open spec fn image_len(&self) -> nat {
        (self.image_width() * self.image_height() * CHANNELS) as nat
    }

    /// A camera at `center` with an image of `IMAGE_WIDTH` columns and
    /// `rows` rows, but one row at least, before its first frame. The bytes
    /// of the image must be countable.
    pub fn new(rows: usize, center: Vec3D, defocus_angle: Scalar) -> (camera: Camera)
        requires
            IMAGE_WIDTH * rows * CHANNELS <= usize::MAX,
        ensures
            camera.image_width() == IMAGE_WIDTH,
            rows < 1 ==> camera.image_height() == 1,
            rows >= 1 ==> camera.image_height() == rows,
            camera.samples_per_pixel() == SAMPLES_PER_PIXEL,
            camera.center() == center,
            camera.defocus_angle() == defocus_angle,
            camera.frame_count() == 0,
    {
        let image_height: usize = if rows < 1 {
            1
        } else {
            rows
        };
        Camera {
            image_width: IMAGE_WIDTH,
            image_height,
            samples_per_pixel: SAMPLES_PER_PIXEL,
            center,
            defocus_angle,
            frame_count: 0,
        }
    }

    pub fn get_image_width(&self) -> (width: usize)
        ensures
            width == self.image_width(),
    {
        self.image_width
    }

    pub fn get_image_height(&self) -> (height: usize)
        ensures
            height == self.image_height(),
            height >= 1,
    {
        proof {
            use_type_invariant(self);
        }
        self.image_height
    }

    /// The bytes of a blank image: every channel of every pixel zero, row
    /// after row.
    pub fn blank_image(&self) -> (bytes: Vec<u8>)
        ensures
            bytes@.len() == self.image_len(),
            forall|i: int| 0 <= i < bytes@.len() ==> bytes@[i] == 0,
    {
        proof {
            use_type_invariant(self);
        }
        let pixels: usize = self.image_width * self.image_height;
        let bytes: Vec<u8> = vec![0; pixels * CHANNELS];
        bytes
    }

    pub fn get_samples_per_pixel(&self) -> (samples: usize)
        ensures
            samples == self.samples_per_pixel(),
    {
        self.samples_per_pixel
    }

    pub fn get_center(&self) -> (center: Vec3D)
        ensures
            center == self.center(),
    {
        self.center
    }

    pub fn get_frame_count(&self) -> (count: usize)
        ensures
            count == self.frame_count(),
    {
        self.frame_count
    }

    /// Begins a render pass: counts the frame, and tells how it is blended.
    /// The new average of a pixel weighs `1 / n` and what the pixel held
    /// weighs `(n - 1) / n`, where `n` counts the frames up to and including
    /// this one.
    pub fn render(&mut self) -> (frame: Frame)
        requires
            old(self).frame_count() < usize::MAX,
        ensures
            final(self).frame_count() == old(self).frame_count() + 1,
            final(self).image_width() == old(self).image_width(),
            final(self).image_height() == old(self).image_height(),
            final(self).samples_per_pixel() == old(self).samples_per_pixel(),
            final(self).center() == old(self).center(),
            final(self).defocus_angle() == old(self).defocus_angle(),
            frame == Frame::nth(final(self).frame_count() as nat),
    {
        proof {
            use_type_invariant(&*self);
        }
        self.frame_count += 1;
        Frame { number: self.frame_count, sample_weight: 1, history_weight: self.frame_count - 1 }
    }

    /// Whether a ray's origin is to be sampled from the defocus disc.
    #[verifier::when_used_as_spec(samples_defocus_disk_spec)]
    pub fn samples_defocus_disk(&self) -> (sampled: bool)
        ensures
            sampled == self.samples_defocus_disk_spec(),
    {
        !self.defocus_angle.le(Scalar::zero())
    }

    /// The ray through a pixel sample, `ray_direction` being the sample
    /// minus the camera's centre. It starts at the centre where the defocus
    /// angle is zero or below, or where no `disk_sample` was drawn, and at
    /// the sample of the defocus disc otherwise.
    pub fn get_ray(&self, ray_direction: Vec3D, disk_sample: Option<Vec3D>) -> (ray: Ray)
        ensures
            ray.direction == ray_direction,
            ray.origin == self.ray_origin(disk_sample),
    {
        let ray_origin = if self.defocus_angle.le(Scalar::zero()) {
            self.center
        } else {
            match disk_sample {
                Some(point) => point,
                None => self.center,
            }
        };
        Ray::new(&ray_origin, &ray_direction)
    }
}

/// What a pixel holds after the frames of `samples`, the averages that one
/// pixel received frame by frame, in exact arithmetic rounded down: a blank
/// pixel, into which frame after frame is blended with the weights of that
/// frame.
pub open spec fn accumulated(samples: Seq<int>) -> int
    decreases samples.len(),
{
    if samples.len() == 0 {
        0
    } else {
        Frame::nth(samples.len()).blend_exact(samples.last(), accumulated(samples.drop_last()))
    }
}

/// Blending a value with itself keeps it. In exact arithmetic, a pixel that
/// holds `value` and receives `value` again as the new average holds `value`
/// afterwards, at every frame.
pub proof fn lemma_blend_keeps_a_repeated_value(number: nat, value: int)
    requires
        1 <= number <= usize::MAX,
    ensures
        Frame::nth(number).sample_weight + Frame::nth(number).history_weight == number,
        Frame::nth(number).blend_exact(value, value) == value,
{
    let n = number as int;
    assert(1 * value + (n - 1) * value == n * value) by (nonlinear_arith);
    assert((n * value) / n == value) by (nonlinear_arith)
        requires
            n >= 1,
    ;
}

/// Identical frames keep the pixel. In exact arithmetic, a pixel that
/// received the same average in every frame holds that average, after
/// however many frames.
pub proof fn lemma_identical_frames_keep_the_pixel(samples: Seq<int>, value: int)
    requires
        1 <= samples.len() <= usize::MAX,
        forall|i: int| 0 <= i < samples.len() ==> samples[i] == value,
    ensures
        accumulated(samples) == value,
    decreases samples.len(),
{
    let n = samples.len();
    let before = samples.drop_last();
    if n > 1 {
        lemma_identical_frames_keep_the_pixel(before, value);
        lemma_blend_keeps_a_repeated_value(n, value);
    } else {
        let blank = accumulated(before);
        assert((1 * value + 0 * blank) / 1 == value);
    }
}

} // verus!
