//! The recursive light-transport shader and the per-pixel tracing
//! pipeline.

use vstd::prelude::*;

use crate::camera::Camera;
use crate::fixed::{fx_add, fx_div, fx_mul, Fx, FX_SCALE};
use crate::intersections::{Intersect, IntersectionResult};
use crate::light_transport::{
    spec_reflect_light, spec_refract_light, reflect_light, refract_light, Color, FColor,
    PBRMaterial, PointLight,
};
use crate::maths::{fxv, Vec2, Vec3};
use crate::ray::{spec_msaa_pattern, valid_sample_count, Ray, RayGenerator};
use crate::RenderError;

verus! {

/// Maximum recursion depth of the shader.
pub const LIGHT_PATHS: usize = 8;

/// Offset added along the normal to move secondary-ray origins off
/// the surface they start from (about `1e-4` in raw units).
pub const SHADOW_BIAS: i64 = 7;

/// `1 / pi` in raw fixed-point units.
pub const INV_PI: i64 = 20861;

/// The Phong specular exponent.
pub const SPECULAR_EXPONENT: u32 = 50;

/// Attenuation applied to the refracted contribution (`0.1`).
pub const REFRACTION_ATTENUATION: i64 = 6554;

/// Dampening applied to the specular contribution (`0.2`).
pub const SPECULAR_DAMPENING: i64 = 13107;

/// Fixed-point power by repeated multiplication, left-associated.
pub open spec fn fx_pow(x: int, n: nat) -> int
    decreases n,
{
    if n == 0 {
        FX_SCALE as int
    } else {
        fx_mul(fx_pow(x, (n - 1) as nat), x)
    }
}

pub fn fx_pow_exec(x: Fx, n: u32) -> (r: Fx)
    ensures
        r.raw == fx_pow(x.raw as int, n as nat),
{
    let mut acc = Fx { raw: FX_SCALE };
    let mut i: u32 = 0;
    while i < n
        invariant
            i <= n,
            acc.raw == fx_pow(x.raw as int, i as nat),
        decreases n - i,
    {
        acc = acc.mul(x);
        i += 1;
    }
    acc
}

/// Non-negative part of a scalar.
pub open spec fn max0(x: int) -> int {
    if x < 0 {
        0
    } else {
        x
    }
}

fn max0_exec(x: Fx) -> (r: Fx)
    ensures
        r.raw == max0(x.raw as int),
{
    if x.raw < 0 {
        Fx { raw: 0 }
    } else {
        x
    }
}

/// The sign used to push a secondary ray's origin off the surface:
/// toward the side the direction `d` points, relative to the normal.
pub open spec fn spec_bias_sign(d: Vec3, n: Vec3) -> int {
    if d.spec_dot(n) < 0 {
        -(FX_SCALE as int)
    } else {
        FX_SCALE as int
    }
}

fn bias_sign(d: Vec3, n: Vec3) -> (r: Fx)
    ensures
        r.raw == spec_bias_sign(d, n),
{
    if d.scalar_mul(n).raw < 0 {
        Fx { raw: -FX_SCALE }
    } else {
        Fx { raw: FX_SCALE }
    }
}

/// The epsilon offset `sign * n * bias` added to a hit point.
pub open spec fn spec_bias_offset(n: Vec3, sign: int) -> Vec3 {
    n.spec_scale(fxv(sign)).spec_scale(fxv(SHADOW_BIAS as int))
}

fn bias_offset(n: Vec3, sign: Fx) -> (r: Vec3)
    ensures
        r == spec_bias_offset(n, sign.raw as int),
{
    n.scale(sign).scale(Fx { raw: SHADOW_BIAS })
}

/// The color a hit point reflects back along `hit_from`, shading
/// recursively until the path depth reaches `LIGHT_PATHS` (the base
/// case contributes white). For each light, in order: the recursive
/// mirror-reflection contribution, the attenuated recursive
/// refraction contribution, and, unless the point lies in shadow of
/// that light, a Lambertian diffuse term and a Phong specular term.
pub open spec fn spec_shade<U: Intersect>(
    mat_col: PBRMaterial,
    hit_point: Vec3,
    hit_normal: Vec3,
    hit_from: Ray,
    lights: Seq<PointLight>,
    geom: U,
    light_path_num: int,
) -> FColor
    decreases LIGHT_PATHS - light_path_num, 1int, 0int,
    when 0 <= light_path_num <= LIGHT_PATHS
{
    if light_path_num == LIGHT_PATHS {
        FColor::spec_white()
    } else {
        spec_shade_lights(
            mat_col,
            hit_point,
            hit_normal,
            hit_from,
            lights,
            geom,
            light_path_num,
            lights.len() as int,
        )
    }
}

/// The shader's accumulated color after the first `n` lights.
pub open spec fn spec_shade_lights<U: Intersect>(
    mat_col: PBRMaterial,
    hit_point: Vec3,
    hit_normal: Vec3,
    hit_from: Ray,
    lights: Seq<PointLight>,
    geom: U,
    light_path_num: int,
    n: int,
) -> FColor
    decreases LIGHT_PATHS - light_path_num, 0int, n, 1int,
    when 0 <= light_path_num < LIGHT_PATHS && n <= lights.len()
{
    if n <= 0 {
        FColor::spec_black()
    } else {
        spec_light_step(
            spec_shade_lights(
                mat_col,
                hit_point,
                hit_normal,
                hit_from,
                lights,
                geom,
                light_path_num,
                n - 1,
            ),
            lights[n - 1],
            mat_col,
            hit_point,
            hit_normal,
            hit_from,
            lights,
            geom,
            light_path_num,
        )
    }
}

/// One light's additions to the accumulated color.
pub open spec fn spec_light_step<U: Intersect>(
    acc: FColor,
    light: PointLight,
    mat_col: PBRMaterial,
    hit_point: Vec3,
    hit_normal: Vec3,
    hit_from: Ray,
    lights: Seq<PointLight>,
    geom: U,
    light_path_num: int,
) -> FColor
    decreases LIGHT_PATHS - light_path_num, 0int, 0int, 0int,
    when 0 <= light_path_num < LIGHT_PATHS
{
    let light_dir = light.point.spec_sub(hit_point).spec_normalize();
    let light_color = light.color.spec_to_fcolor();
    let shadow_orig = hit_point.spec_add(
        spec_bias_offset(hit_normal, spec_bias_sign(light_dir, hit_normal)),
    );
    let light_ray = Ray { dir: light_dir, pos: shadow_orig, min: fxv(0), max: fxv(i64::MAX as int) };
    let light_distance = light.point.spec_sub(hit_point).spec_length();

    // reflection
    let refl0 = spec_reflect_light(hit_from, hit_normal, hit_point);
    let refl = Ray {
        pos: hit_point.spec_add(spec_bias_offset(hit_normal, spec_bias_sign(refl0.dir, hit_normal))),
        ..refl0
    };
    let acc1 = match geom.spec_intersect(refl) {
        IntersectionResult::Hit { color, normal, point, .. } => acc.spec_add(
            spec_shade(color, point, normal, refl, lights, geom, light_path_num + 1),
        ),
        IntersectionResult::Miss => acc,
    };

    // refraction
    let acc2 = match spec_refract_light(hit_from, hit_normal, hit_point, mat_col.ior) {
        Some(refr0) => {
            let refr = Ray {
                pos: hit_point.spec_sub(
                    spec_bias_offset(hit_normal, spec_bias_sign(refr0.dir, hit_normal)),
                ),
                ..refr0
            };
            match geom.spec_intersect(refr) {
                IntersectionResult::Hit { color, normal, point, .. } => acc1.spec_add(
                    spec_shade(color, point, normal, refr, lights, geom, light_path_num + 1)
                        .spec_scale(fxv(REFRACTION_ATTENUATION as int)),
                ),
                IntersectionResult::Miss => acc1,
            }
        },
        None => acc1,
    };

    // shadow test
    let shadowed = match geom.spec_intersect(light_ray) {
        IntersectionResult::Hit { point, .. } => point.spec_sub(shadow_orig).spec_length().raw
            < light_distance.raw,
        IntersectionResult::Miss => false,
    };
    if shadowed {
        acc2
    } else {
        // diffuse
        let lambert = fx_mul(
            fx_mul(INV_PI as int, light.intensity.raw as int),
            max0(hit_normal.spec_dot(light_dir.spec_neg())),
        );
        let diffuse = light_color.spec_scale(fxv(lambert)).spec_mul(
            mat_col.color.spec_scale(fxv(2 * FX_SCALE as int)),
        );
        let acc3 = acc2.spec_add(diffuse);
        // specular
        let spec_ray = spec_reflect_light(light_ray, hit_normal, hit_point);
        let phong = fx_pow(max0(spec_ray.dir.spec_dot(hit_from.dir)), SPECULAR_EXPONENT as nat);
        let specular = FColor::spec_white().spec_scale(fxv(phong)).spec_scale(
            mat_col.metallic_factor,
        ).spec_scale(light.intensity).spec_scale(fxv(SPECULAR_DAMPENING as int));
        acc3.spec_add(specular)
    }
}

/// Recursive shading of one hit point; see `spec_shade`.
pub fn shade_with<U: Intersect>(
    mat_col: PBRMaterial,
    hit_point: Vec3,
    hit_normal: Vec3,
    hit_from: &Ray,
    lights: &Vec<PointLight>,
    geom: &U,
    light_path_num: usize,
) -> (r: FColor)
    requires
        light_path_num <= LIGHT_PATHS,
    ensures
        r == spec_shade(
            mat_col,
            hit_point,
            hit_normal,
            *hit_from,
            lights@,
            *geom,
            light_path_num as int,
        ),
    decreases LIGHT_PATHS - light_path_num,
{
    if light_path_num == LIGHT_PATHS {
        return FColor::white();
    }
    let mut hit_color = FColor::black();
    let mut li: usize = 0;
    while li < lights.len()
        invariant
            li <= lights.len(),
            light_path_num < LIGHT_PATHS,
            hit_color == spec_shade_lights(
                mat_col,
                hit_point,
                hit_normal,
                *hit_from,
                lights@,
                *geom,
                light_path_num as int,
                li as int,
            ),
        decreases lights.len() - li,
    {
        let ghost acc0 = hit_color;
        let light = lights[li];

        let light_dir = light.point.sub(hit_point).normalize();
        let light_color = light.color.to_fcolor();
        let shadow_orig = hit_point.add(bias_offset(hit_normal, bias_sign(light_dir, hit_normal)));
        let light_ray = Ray {
            dir: light_dir,
            pos: shadow_orig,
            min: Fx { raw: 0 },
            max: Fx { raw: i64::MAX },
        };
        let light_distance = light.point.sub(hit_point).length();

        // reflection
        let refl0 = reflect_light(hit_from, hit_normal, hit_point);
        let refl = Ray {
            pos: hit_point.add(bias_offset(hit_normal, bias_sign(refl0.dir, hit_normal))),
            ..refl0
        };
        match geom.intersect(&refl) {
            IntersectionResult::Hit { color, normal, point, .. } => {
                let rec = shade_with(color, point, normal, &refl, lights, geom, light_path_num + 1);
                hit_color.add_assign(rec);
            },
            IntersectionResult::Miss => {},
        }

        // refraction
        match refract_light(hit_from, hit_normal, hit_point, mat_col.ior) {
            Some(refr0) => {
                let refr = Ray {
                    pos: hit_point.sub(bias_offset(hit_normal, bias_sign(refr0.dir, hit_normal))),
                    ..refr0
                };
                match geom.intersect(&refr) {
                    IntersectionResult::Hit { color, normal, point, .. } => {
                        let rec = shade_with(
                            color,
                            point,
                            normal,
                            &refr,
                            lights,
                            geom,
                            light_path_num + 1,
                        );
                        hit_color.add_assign(rec.scale(Fx { raw: REFRACTION_ATTENUATION }));
                    },
                    IntersectionResult::Miss => {},
                }
            },
            None => {},
        }

        // shadow test
        let shadowed = match geom.intersect(&light_ray) {
            IntersectionResult::Hit { point, .. } => point.sub(shadow_orig).length().raw
                < light_distance.raw,
            IntersectionResult::Miss => false,
        };

        if !shadowed {
            // diffuse
            let lambert = Fx { raw: INV_PI }.mul(light.intensity).mul(
                max0_exec(hit_normal.scalar_mul(light_dir.neg())),
            );
            let diffuse = light_color.scale(lambert).mul(
                mat_col.color.scale(Fx { raw: 2 * FX_SCALE }),
            );
            hit_color.add_assign(diffuse);
            // specular
            let spec_ray = reflect_light(&light_ray, hit_normal, hit_point);
            let phong = fx_pow_exec(
                max0_exec(spec_ray.dir.scalar_mul(hit_from.dir)),
                SPECULAR_EXPONENT,
            );
            let specular = FColor::white().scale(phong).scale(mat_col.metallic_factor).scale(
                light.intensity,
            ).scale(Fx { raw: SPECULAR_DAMPENING });
            hit_color.add_assign(specular);
        }

        proof {
            assert(hit_color == spec_light_step(
                acc0,
                lights@[li as int],
                mat_col,
                hit_point,
                hit_normal,
                *hit_from,
                lights@,
                *geom,
                light_path_num as int,
            ));
        }
        li += 1;
    }
    hit_color
}

/// The background color assigned to a primary ray that misses all
/// geometry, as byte channel values.
pub const MISS_CHANNEL: u8 = 0x01;

/// The byte color one camera ray contributes to its pixel: the hit
/// point shaded from depth zero, or the miss background.
pub open spec fn spec_ray_rgb<U: Intersect>(ray: Ray, geom: U, lights: Seq<PointLight>) -> (
    int,
    int,
    int,
) {
    match geom.spec_intersect(ray) {
        IntersectionResult::Hit { color, normal, point, .. } => {
            let c = spec_shade(color, point, normal, ray, lights, geom, 0).spec_to_color();
            (c.r as int, c.g as int, c.b as int)
        },
        IntersectionResult::Miss => (MISS_CHANNEL as int, MISS_CHANNEL as int, MISS_CHANNEL as int),
    }
}

/// The running average over the first `k` of `n` samples: each byte
/// channel is lifted to fixed point, divided by the sample count and
/// accumulated.
pub open spec fn spec_trace_acc<U: Intersect>(
    rays: Seq<Ray>,
    geom: U,
    lights: Seq<PointLight>,
    n: int,
    k: int,
) -> (int, int, int)
    decreases k,
{
    if k <= 0 {
        (0, 0, 0)
    } else {
        let prev = spec_trace_acc(rays, geom, lights, n, k - 1);
        let rgb = spec_ray_rgb(rays[k - 1], geom, lights);
        (
            fx_add(prev.0, fx_div(rgb.0 * FX_SCALE as int, n * FX_SCALE as int)),
            fx_add(prev.1, fx_div(rgb.1 * FX_SCALE as int, n * FX_SCALE as int)),
            fx_add(prev.2, fx_div(rgb.2 * FX_SCALE as int, n * FX_SCALE as int)),
        )
    }
}

/// A whole-valued fixed-point channel as a byte, truncated and
/// clamped into `[0, 255]`.
pub open spec fn spec_whole_byte(x: int) -> int {
    if x < 0 {
        0
    } else if x / (FX_SCALE as int) > 255 {
        255
    } else {
        x / (FX_SCALE as int)
    }
}

fn fx_whole_byte(x: Fx) -> (r: u8)
    ensures
        r == spec_whole_byte(x.raw as int),
{
    if x.raw < 0 {
        0
    } else {
        let q: u64 = (x.raw as u64) / (FX_SCALE as u64);
        if q > 255 {
            255
        } else {
            q as u8
        }
    }
}

/// The pixel color of a sample list: averaged sample colors, brought
/// back to opaque bytes.
pub open spec fn spec_trace<U: Intersect>(rays: Seq<Ray>, geom: U, lights: Seq<PointLight>) -> Color {
    let acc = spec_trace_acc(rays, geom, lights, rays.len() as int, rays.len() as int);
    Color {
        r: spec_whole_byte(acc.0) as u8,
        g: spec_whole_byte(acc.1) as u8,
        b: spec_whole_byte(acc.2) as u8,
        a: 0xFF,
    }
}

/// Trace every sample ray of one pixel and average the results into
/// the pixel's final byte color.
pub fn trace_with<U: Intersect>(rays: Vec<Ray>, geom: &U, lights: &Vec<PointLight>) -> (res: Color)
    requires
        rays@.len() <= 140737488355327,
    ensures
        res == spec_trace(rays@, *geom, lights@),
{
    let n_fx = Fx { raw: (rays.len() as i64) * FX_SCALE };
    let mut ar = Fx { raw: 0 };
    let mut ag = Fx { raw: 0 };
    let mut ab = Fx { raw: 0 };
    let mut i: usize = 0;
    while i < rays.len()
        invariant
            i <= rays@.len(),
            rays@.len() <= 140737488355327,
            n_fx.raw == rays@.len() * FX_SCALE as int,
            ar.raw == spec_trace_acc(rays@, *geom, lights@, rays@.len() as int, i as int).0,
            ag.raw == spec_trace_acc(rays@, *geom, lights@, rays@.len() as int, i as int).1,
            ab.raw == spec_trace_acc(rays@, *geom, lights@, rays@.len() as int, i as int).2,
        decreases rays@.len() - i,
    {
        let ray = rays[i];
        let rgb: (u8, u8, u8) = match geom.intersect(&ray) {
            IntersectionResult::Hit { color, normal, point, .. } => {
                let c = shade_with(color, point, normal, &ray, lights, geom, 0).to_color();
                (c.r, c.g, c.b)
            },
            IntersectionResult::Miss => (MISS_CHANNEL, MISS_CHANNEL, MISS_CHANNEL),
        };
        ar = ar.add(Fx { raw: (rgb.0 as i64) * FX_SCALE }.div(n_fx));
        ag = ag.add(Fx { raw: (rgb.1 as i64) * FX_SCALE }.div(n_fx));
        ab = ab.add(Fx { raw: (rgb.2 as i64) * FX_SCALE }.div(n_fx));
        i += 1;
    }
    Color { r: fx_whole_byte(ar), g: fx_whole_byte(ag), b: fx_whole_byte(ab), a: 0xFF }
}

/// Generate one pixel's sample rays in camera space and carry each
/// into world space.
pub fn generate_rays<T: RayGenerator>(
    pixel: Vec2,
    perspective: &T,
    cam: &Camera,
    samples: usize,
) -> (r: Result<Vec<Ray>, RenderError>)
    ensures
        valid_sample_count(samples as int) ==> (r matches Ok(v) && v@.len() == spec_msaa_pattern(
            samples as int,
        ).len() && (forall|j: int|
            0 <= j < v@.len() ==> v@[j] == cam.spec_ray_cam_to_world(
                perspective.spec_gen_ray(pixel.spec_add(spec_msaa_pattern(samples as int)[j])),
            ))),
        !valid_sample_count(samples as int) ==> r === Err(RenderError::InvalidSampleCount),
{
    let rays = match perspective.gen_samples(pixel, samples) {
        Ok(v) => v,
        Err(e) => {
            return Err(e);
        },
    };
    let mut out: Vec<Ray> = Vec::new();
    let mut i: usize = 0;
    while i < rays.len()
        invariant
            i <= rays@.len(),
            out@.len() == i,
            forall|j: int| 0 <= j < i ==> out@[j] == cam.spec_ray_cam_to_world(rays@[j]),
        decreases rays@.len() - i,
    {
        let w = cam.ray_cam_to_world(&rays[i]);
        out.push(w);
        i += 1;
    }
    Ok(out)
}

/// The render configuration, fixed once at startup: output
/// resolution, camera pose (with its field of view), sample count
/// and light list. The recursion depth cap is the crate constant
/// `LIGHT_PATHS`.
pub struct RenderConfig {
    pub width: u32,
    pub height: u32,
    pub camera: Camera,
    pub samples: usize,
    pub lights: Vec<PointLight>,
}

/// A configuration is renderable when both image dimensions are
/// positive and the sample count is supported.
pub open spec fn spec_config_valid(cfg: RenderConfig) -> bool {
    cfg.width > 0 && cfg.height > 0 && valid_sample_count(cfg.samples as int)
}

/// The pinhole projection a configuration induces: the camera's
/// field of view over the configured resolution.
pub open spec fn spec_perspective(cfg: RenderConfig) -> crate::ray::PinholePerspective {
    crate::ray::PinholePerspective {
        camera_fov: cfg.camera.fov,
        fov_dir: crate::ray::CameraFovDirection::Horizontal,
        image_size: Vec2 {
            x: fxv(cfg.width as int * FX_SCALE as int),
            y: fxv(cfg.height as int * FX_SCALE as int),
        },
    }
}

/// The world-space sample rays of one pixel under a configuration.
pub open spec fn spec_pixel_rays(cfg: RenderConfig, pixel: Vec2) -> Seq<Ray> {
    spec_msaa_pattern(cfg.samples as int).map_values(
        |o: Vec2|
            cfg.camera.spec_ray_cam_to_world(
                spec_perspective(cfg).spec_gen_ray(pixel.spec_add(o)),
            ),
    )
}

/// Render one pixel of a configured scene: validate the
/// configuration (fail fast, before any tracing), generate the
/// pixel's sample rays, carry them to world space and trace them to
/// an averaged byte color.
pub fn render_pixel<U: Intersect>(
    cfg: &RenderConfig,
    geom: &U,
    pixel: Vec2,
) -> (r: Result<Color, RenderError>)
    ensures
        (cfg.width == 0 || cfg.height == 0) ==> r === Err(RenderError::ZeroImageDimension),
        cfg.width > 0 && cfg.height > 0 && !valid_sample_count(cfg.samples as int) ==> r === Err(
            RenderError::InvalidSampleCount,
        ),
        spec_config_valid(*cfg) ==> r === Ok(
            spec_trace(spec_pixel_rays(*cfg, pixel), *geom, cfg.lights@),
        ),
{
    if cfg.width == 0 || cfg.height == 0 {
        return Err(RenderError::ZeroImageDimension);
    }
    let perspective = crate::ray::PinholePerspective {
        camera_fov: cfg.camera.fov,
        fov_dir: crate::ray::CameraFovDirection::Horizontal,
        image_size: Vec2 {
            x: Fx { raw: (cfg.width as i64) * FX_SCALE },
            y: Fx { raw: (cfg.height as i64) * FX_SCALE },
        },
    };
    let rays = match generate_rays(pixel, &perspective, &cfg.camera, cfg.samples) {
        Ok(v) => v,
        Err(e) => {
            return Err(e);
        },
    };
    proof {
        assert(rays@ =~= spec_pixel_rays(*cfg, pixel));
        assert(spec_msaa_pattern(cfg.samples as int).len() <= 16);
    }
    Ok(trace_with(rays, geom, &cfg.lights))
}

} // verus!
