//! Rays, the pinhole ray generator, and the fixed multi-sample
//! anti-aliasing offset patterns.

use vstd::prelude::*;

use crate::fixed::{fx_add, fx_div, fx_mul, fx_sub, Fx, FX_SCALE};
use crate::maths::{fxv, Vec2, Vec3};
use crate::RenderError;

verus! {

/// A parametrized line segment: origin, direction (not necessarily
/// unit length) and the parametric interval in which intersection
/// distances count as valid hits.
#[derive(Clone, Copy, Debug, PartialEq, Eq, Structural)]
pub struct Ray {
    /// Origin.
    pub pos: Vec3,
    /// Direction.
    pub dir: Vec3,
    /// Start of intersection testing.
    pub min: Fx,
    /// End of intersection testing.
    pub max: Fx,
}

impl Ray {
    /// The point reached after travelling `t` along the direction.
    pub open spec fn spec_at(self, t: Fx) -> Vec3 {
        self.pos.spec_add(self.dir.spec_scale(t))
    }

    pub fn at(&self, t: Fx) -> (r: Vec3)
        ensures
            r == self.spec_at(t),
    {
        self.pos.add(self.dir.scale(t))
    }
}

/// Which image axis the field-of-view angle refers to.
#[derive(Clone, Copy, Debug, PartialEq, Eq, Structural)]
pub enum CameraFovDirection {
    Horizontal,
    Vertical,
    /// Only meaningful for fish-eye projections.
    Diagonal,
}

/// Coefficients of the degree-7 Taylor polynomial of the tangent,
/// in raw fixed-point units: 1/3, 2/15 and 17/315.
pub const TAN_C3: i64 = 21845;

pub const TAN_C5: i64 = 8738;

pub const TAN_C7: i64 = 3536;

/// Exact fixed-point value of the tangent polynomial
/// `x + x^3/3 + 2 x^5/15 + 17 x^7/315`, evaluated by Horner's rule
/// with fixed-point rounding at every step.
pub open spec fn spec_tan_poly(x: int) -> int {
    let x2 = fx_mul(x, x);
    let p7 = TAN_C7 as int;
    let p5 = fx_add(TAN_C5 as int, fx_mul(x2, p7));
    let p3 = fx_add(TAN_C3 as int, fx_mul(x2, p5));
    let p1 = fx_add(FX_SCALE as int, fx_mul(x2, p3));
    fx_mul(x, p1)
}

/// Tangent by a degree-7 Taylor polynomial; a good approximation for
/// arguments of magnitude up to about a quarter turn.
pub fn tan_approx(x: Fx) -> (r: Fx)
    ensures
        r.raw == spec_tan_poly(x.raw as int),
{
    let x2 = x.mul(x);
    let p5 = Fx { raw: TAN_C5 }.add(x2.mul(Fx { raw: TAN_C7 }));
    let p3 = Fx { raw: TAN_C3 }.add(x2.mul(p5));
    let p1 = Fx { raw: FX_SCALE }.add(x2.mul(p3));
    x.mul(p1)
}

/// The supported anti-aliasing sample counts.
pub open spec fn valid_sample_count(samples: int) -> bool {
    samples == 1 || samples == 2 || samples == 4 || samples == 8 || samples == 16
}

/// The fixed sub-pixel offset pattern for a supported sample count
/// (raw fixed-point coordinates in `[0, 1)`).
pub open spec fn spec_msaa_pattern(samples: int) -> Seq<Vec2> {
    if samples == 1 {
        seq![sv2(32768, 32768)]
    } else if samples == 2 {
        seq![sv2(16384, 16384), sv2(49152, 49152)]
    } else if samples == 4 {
        seq![sv2(24576, 8192), sv2(57344, 24576), sv2(40960, 57344), sv2(8192, 40960)]
    } else if samples == 8 {
        seq![
            sv2(36864, 45056),
            sv2(28672, 20480),
            sv2(53248, 28672),
            sv2(20480, 53248),
            sv2(12288, 12288),
            sv2(4096, 36864),
            sv2(45056, 4096),
            sv2(61440, 61440),
        ]
    } else if samples == 16 {
        seq![
            sv2(36864, 28672),
            sv2(28672, 45056),
            sv2(20480, 24576),
            sv2(49152, 36864),
            sv2(12288, 40960),
            sv2(40960, 12288),
            sv2(12288, 20480),
            sv2(45056, 53248),
            sv2(24576, 8192),
            sv2(32768, 61440),
            sv2(16384, 57344),
            sv2(8192, 16384),
            sv2(0, 32768),
            sv2(61440, 49152),
            sv2(57344, 4096),
            sv2(4096, 0),
        ]
    } else {
        Seq::empty()
    }
}

/// Shorthand for a raw-valued 2-D point in specifications.
pub open spec fn sv2(x: int, y: int) -> Vec2 {
    Vec2 { x: fxv(x), y: fxv(y) }
}

/// A supported sample count names a pattern of exactly that many
/// offsets, so multi-sample generation returns one ray per sample.
pub proof fn lemma_msaa_pattern_len(samples: int)
    requires
        valid_sample_count(samples),
    ensures
        spec_msaa_pattern(samples).len() == samples,
{
}

/// Maps pixels to camera-space rays.
pub trait RayGenerator: Sized {
    /// The ray this generator assigns to a (sub-)pixel coordinate.
    spec fn spec_gen_ray(self, pixel: Vec2) -> Ray;

    fn gen_ray(&self, pixel: Vec2) -> (r: Ray)
        ensures
            r == self.spec_gen_ray(pixel),
    ;

    /// Deterministic multi-sample generation: one ray per offset of
    /// the fixed pattern for `samples`; any unsupported count is a
    /// configuration error.
    fn gen_samples(&self, pixel: Vec2, samples: usize) -> (r: Result<Vec<Ray>, RenderError>)
        ensures
            valid_sample_count(samples as int) ==> (r matches Ok(v) && v@.len()
                == spec_msaa_pattern(samples as int).len() && (forall|j: int|
                0 <= j < v@.len() ==> v@[j] == self.spec_gen_ray(
                    pixel.spec_add(spec_msaa_pattern(samples as int)[j]),
                ))),
            !valid_sample_count(samples as int) ==> r === Err(RenderError::InvalidSampleCount),
    ;
}

/// The sub-pixel offsets for a supported sample count, as a vector.
pub fn msaa_pattern(samples: usize) -> (r: Result<Vec<Vec2>, RenderError>)
    ensures
        valid_sample_count(samples as int) ==> (r matches Ok(v) && v@ == spec_msaa_pattern(
            samples as int,
        )),
        !valid_sample_count(samples as int) ==> r === Err(RenderError::InvalidSampleCount),
{
    let mut v: Vec<Vec2> = Vec::new();
    if samples == 1 {
        push2(&mut v, 32768, 32768);
    } else if samples == 2 {
        push2(&mut v, 16384, 16384);
        push2(&mut v, 49152, 49152);
    } else if samples == 4 {
        push2(&mut v, 24576, 8192);
        push2(&mut v, 57344, 24576);
        push2(&mut v, 40960, 57344);
        push2(&mut v, 8192, 40960);
    } else if samples == 8 {
        push2(&mut v, 36864, 45056);
        push2(&mut v, 28672, 20480);
        push2(&mut v, 53248, 28672);
        push2(&mut v, 20480, 53248);
        push2(&mut v, 12288, 12288);
        push2(&mut v, 4096, 36864);
        push2(&mut v, 45056, 4096);
        push2(&mut v, 61440, 61440);
    } else if samples == 16 {
        push2(&mut v, 36864, 28672);
        push2(&mut v, 28672, 45056);
        push2(&mut v, 20480, 24576);
        push2(&mut v, 49152, 36864);
        push2(&mut v, 12288, 40960);
        push2(&mut v, 40960, 12288);
        push2(&mut v, 12288, 20480);
        push2(&mut v, 45056, 53248);
        push2(&mut v, 24576, 8192);
        push2(&mut v, 32768, 61440);
        push2(&mut v, 16384, 57344);
        push2(&mut v, 8192, 16384);
        push2(&mut v, 0, 32768);
        push2(&mut v, 61440, 49152);
        push2(&mut v, 57344, 4096);
        push2(&mut v, 4096, 0);
    } else {
        return Err(RenderError::InvalidSampleCount);
    }
    proof {
        assert(v@ =~= spec_msaa_pattern(samples as int));
    }
    Ok(v)
}

fn push2(v: &mut Vec<Vec2>, x: i64, y: i64)
    ensures
        final(v)@ == old(v)@.push(sv2(x as int, y as int)),
{
    v.push(Vec2 { x: Fx { raw: x }, y: Fx { raw: y } });
}

/// A thin-lens camera projection. The pinhole projection is the one
/// in use; this model carries no state and no ray generator is
/// provided for it.
#[derive(Clone, Copy, Debug, PartialEq, Eq, Structural)]
pub struct ThinLensPerspective {}

/// A pinhole camera projection: camera at the local origin, looking
/// down the negative z axis.
#[derive(Clone, Copy, Debug, PartialEq, Eq, Structural)]
pub struct PinholePerspective {
    /// Field of view, in radians.
    pub camera_fov: Fx,
    /// Which axis the field of view refers to.
    pub fov_dir: CameraFovDirection,
    /// Image width and height, as fixed-point scalars.
    pub image_size: Vec2,
}

impl RayGenerator for PinholePerspective {
    /// Raster to normalized-device to screen coordinates, scaled by
    /// aspect ratio (horizontal axis only) and the tangent of half
    /// the field of view; the ray leaves the local origin toward
    /// `z == -1` with an unbounded valid interval.
    open spec fn spec_gen_ray(self, pixel: Vec2) -> Ray {
        let half = fxv(32768);
        let one = fxv(FX_SCALE as int);
        let two = fxv(2 * FX_SCALE as int);
        let tan_half = fxv(spec_tan_poly(fx_div(self.camera_fov.raw as int, two.raw as int)));
        let aspect = fxv(fx_div(self.image_size.x.raw as int, self.image_size.y.raw as int));
        let ndc_x = fx_div(
            fx_add(pixel.x.raw as int, half.raw as int),
            self.image_size.x.raw as int,
        );
        let ndc_y = fx_div(
            fx_add(pixel.y.raw as int, half.raw as int),
            self.image_size.y.raw as int,
        );
        let screen_x = fx_sub(fx_mul(two.raw as int, ndc_x), one.raw as int);
        let screen_y = fx_sub(one.raw as int, fx_mul(two.raw as int, ndc_y));
        let dir_x = fx_mul(fx_mul(screen_x, aspect.raw as int), tan_half.raw as int);
        let dir_y = fx_mul(screen_y, tan_half.raw as int);
        Ray {
            pos: Vec3::spec_zero(),
            dir: Vec3 { x: fxv(dir_x), y: fxv(dir_y), z: fxv(-(FX_SCALE as int)) },
            min: fxv(0),
            max: fxv(i64::MAX as int),
        }
    }

    fn gen_ray(&self, pixel: Vec2) -> (r: Ray)
        ensures
            r == self.spec_gen_ray(pixel),
    {
        let half = Fx { raw: 32768 };
        let one = Fx { raw: FX_SCALE };
        let two = Fx { raw: 2 * FX_SCALE };
        let tan_half = tan_approx(self.camera_fov.div(two));
        let aspect = self.image_size.x.div(self.image_size.y);
        let ndc_x = pixel.x.add(half).div(self.image_size.x);
        let ndc_y = pixel.y.add(half).div(self.image_size.y);
        let screen_x = two.mul(ndc_x).sub(one);
        let screen_y = one.sub(two.mul(ndc_y));
        let dir_x = screen_x.mul(aspect).mul(tan_half);
        let dir_y = screen_y.mul(tan_half);
        Ray {
            pos: Vec3::zero(),
            dir: Vec3 { x: dir_x, y: dir_y, z: Fx { raw: -FX_SCALE } },
            min: Fx { raw: 0 },
            max: Fx { raw: i64::MAX },
        }
    }

    fn gen_samples(&self, pixel: Vec2, samples: usize) -> (r: Result<Vec<Ray>, RenderError>) {
        let pattern = match msaa_pattern(samples) {
            Ok(p) => p,
            Err(e) => {
                return Err(e);
            },
        };
        let mut out: Vec<Ray> = Vec::new();
        let mut i: usize = 0;
        while i < pattern.len()
            invariant
                i <= pattern.len(),
                pattern@ == spec_msaa_pattern(samples as int),
                out@.len() == i,
                forall|j: int|
                    0 <= j < i ==> out@[j] == self.spec_gen_ray(pixel.spec_add(pattern@[j])),
            decreases pattern.len() - i,
        {
            let p = pixel.add(pattern[i]);
            let ray = self.gen_ray(p);
            out.push(ray);
            i += 1;
        }
        Ok(out)
    }
}

} // verus!
