//! Colors, reflection, refraction and the recursive shader.

use raytracer::fixed::{Fx, FX_SCALE};
use raytracer::intersections::{TriGeometry, Triangle};
use raytracer::light_transport::{
    reflect_light, refract_light, Color, FColor, PBRMaterial, PointLight,
};
use raytracer::maths::Vec3;
use raytracer::ray::Ray;
use raytracer::render::{shade_with, INV_PI, LIGHT_PATHS};

const S: i64 = FX_SCALE;

fn fx(raw: i64) -> Fx {
    Fx { raw }
}

fn v3(x: i64, y: i64, z: i64) -> Vec3 {
    Vec3 { x: fx(x), y: fx(y), z: fx(z) }
}

fn ray(pos: Vec3, dir: Vec3) -> Ray {
    Ray { pos, dir, min: fx(0), max: fx(i64::MAX) }
}

/// Reference truncating fixed-point product.
fn fmul(a: i64, b: i64) -> i64 {
    ((a as i128 * b as i128) / S as i128) as i64
}

#[test]
fn color_to_fcolor_round_trip() {
    let c = Color::from_rgb(255, 128, 0);
    let f = c.to_fcolor();
    assert_eq!((f.r.raw, f.g.raw, f.b.raw), (255 * 256, 128 * 256, 0));
    let back = f.to_color();
    assert_eq!((back.r, back.g, back.b, back.a), (255, 128, 0, 0xFF));
}

#[test]
fn fcolor_to_color_truncates_and_clamps() {
    // floor(0.5 * 256) == 128
    let f = FColor::new(fx(S / 2), fx(2 * S), fx(-S));
    let c = f.to_color();
    assert_eq!((c.r, c.g, c.b), (128, 255, 0));
}

#[test]
fn color_add_saturates() {
    let a = Color::from_rgb(200, 10, 255);
    let b = Color::from_rgb(100, 10, 1);
    let c = a.add(b);
    assert_eq!((c.r, c.g, c.b), (255, 20, 255));
}

#[test]
fn color_mul_scales_channels() {
    // 128/256 * 0.5 == 0.25 -> byte 64
    let c = Color::from_rgb(128, 0, 255).mul(fx(S / 2));
    assert_eq!((c.r, c.g, c.b, c.a), (64, 0, 127, 0xFF));
}

#[test]
fn fcolor_channelwise_algebra() {
    let a = FColor::new(fx(S), fx(S / 2), fx(0));
    let b = FColor::new(fx(S / 2), fx(S / 2), fx(S));
    let m = a.mul(b);
    assert_eq!((m.r.raw, m.g.raw, m.b.raw), (S / 2, S / 4, 0));
    let s = a.add(b);
    assert_eq!((s.r.raw, s.g.raw, s.b.raw), (3 * S / 2, S, S));
    let d = a.scale(fx(2 * S));
    assert_eq!((d.r.raw, d.g.raw, d.b.raw), (2 * S, S, 0));
}

#[test]
fn material_from_bytes() {
    let m = PBRMaterial::from_rgb(0xd3, 0x68, 0x7d);
    assert_eq!(m.color.r.raw, 0xd3 * 256);
    assert_eq!(m.metallic_factor.raw, 0);
    assert_eq!(m.ior.raw, S);
    assert_eq!(m.transmissive.raw, 0);
}

#[test]
fn reflect_light_mirrors_about_normal() {
    // (1,-1,0) about the y axis normal reflects to (1,1,0)
    let incoming = ray(v3(0, S, 0), v3(S, -S, 0));
    let r = reflect_light(&incoming, v3(0, S, 0), v3(0, 0, 0));
    assert_eq!((r.dir.x.raw, r.dir.y.raw, r.dir.z.raw), (S, S, 0));
    assert_eq!((r.pos.x.raw, r.pos.y.raw, r.pos.z.raw), (0, 0, 0));
    assert_eq!(r.min.raw, incoming.min.raw);
    assert_eq!(r.max.raw, incoming.max.raw);
}

#[test]
fn refract_past_critical_angle_is_none() {
    // relative index 1.5, grazing incidence (about 80 degrees):
    // total internal reflection
    let incoming = ray(v3(0, 0, S), v3(64543, 0, -11378));
    let r = refract_light(&incoming, v3(0, 0, S), v3(0, 0, 0), fx(3 * S / 2));
    assert!(r.is_none());
}

#[test]
fn refract_below_critical_angle_is_some() {
    // same interface at 30 degrees: a transmitted ray comes back and
    // keeps travelling into the surface
    let incoming = ray(v3(0, 0, S), v3(32768, 0, -56756));
    let r = refract_light(&incoming, v3(0, 0, S), v3(0, 0, 0), fx(3 * S / 2));
    match r {
        Some(t) => {
            assert!(t.dir.z.raw < 0, "transmitted ray should continue downward");
            assert!(t.dir.x.raw > 0);
        }
        None => panic!("expected a transmitted ray"),
    }
}

#[test]
fn refract_at_matched_index_keeps_direction() {
    // equal indices on both sides: the transmitted direction equals
    // the incoming direction
    let incoming = ray(v3(0, 0, S), v3(0, 0, -S));
    let r = refract_light(&incoming, v3(0, 0, S), v3(0, 0, 0), fx(S)).expect("no reflection");
    assert_eq!((r.dir.x.raw, r.dir.y.raw, r.dir.z.raw), (0, 0, -S));
}

#[test]
fn shade_at_depth_cap_is_white() {
    let geom = TriGeometry { objects: vec![] };
    let lights = vec![];
    let c = shade_with(
        PBRMaterial::from_rgb(10, 20, 30),
        v3(0, 0, 0),
        v3(0, 0, S),
        &ray(v3(0, 0, S), v3(0, 0, -S)),
        &lights,
        &geom,
        LIGHT_PATHS,
    );
    assert_eq!((c.r.raw, c.g.raw, c.b.raw), (S, S, S));
}

#[test]
fn shade_without_lights_is_black() {
    let geom = TriGeometry { objects: vec![] };
    let lights = vec![];
    let c = shade_with(
        PBRMaterial::from_rgb(10, 20, 30),
        v3(0, 0, 0),
        v3(0, 0, S),
        &ray(v3(0, 0, S), v3(0, 0, -S)),
        &lights,
        &geom,
        0,
    );
    assert_eq!((c.r.raw, c.g.raw, c.b.raw), (0, 0, 0));
}

fn grazing_hit_from() -> Ray {
    // a view ray at about 80 degrees incidence, so a material of
    // index 1.5 totally reflects (no refracted contribution)
    ray(v3(0, 0, S), v3(64543, 0, -11378))
}

fn white_light_above() -> PointLight {
    PointLight { point: v3(0, 0, 5 * S), color: Color::from_rgb(255, 255, 255), intensity: fx(S) }
}

fn glassy_white() -> PBRMaterial {
    let mut m = PBRMaterial::from_rgb(255, 255, 255);
    m.ior = fx(3 * S / 2);
    m
}

#[test]
fn shade_diffuse_exact_value() {
    // empty geometry: no shadow, the reflected ray misses, the
    // refraction hits total internal reflection; only the diffuse
    // term remains and its value is pinned exactly
    let geom = TriGeometry { objects: vec![] };
    let lights = vec![white_light_above()];
    let c = shade_with(glassy_white(), v3(0, 0, 0), v3(0, 0, -S), &grazing_hit_from(), &lights, &geom, 0);

    let lambert = fmul(fmul(INV_PI, S), S);
    let light_scaled = fmul(255 * 256, lambert);
    let mat_scaled = fmul(255 * 256, 2 * S);
    let expect = fmul(light_scaled, mat_scaled);
    assert_eq!((c.r.raw, c.g.raw, c.b.raw), (expect, expect, expect));
    assert!(expect > 0);
}

#[test]
fn shade_shadowed_light_contributes_nothing() {
    // a triangle between the hit point and the light: the diffuse
    // and specular terms are skipped and nothing else contributes
    let blocker = Triangle {
        vertices: [
            v3(-S, -S, 5 * S / 2),
            v3(S, -S, 5 * S / 2),
            v3(0, S, 5 * S / 2),
        ],
        pbr_mat: PBRMaterial::from_rgb(9, 9, 9),
    };
    let geom = TriGeometry { objects: vec![blocker] };
    let lights = vec![white_light_above()];
    let c = shade_with(glassy_white(), v3(0, 0, 0), v3(0, 0, -S), &grazing_hit_from(), &lights, &geom, 0);
    assert_eq!((c.r.raw, c.g.raw, c.b.raw), (0, 0, 0));
}

#[test]
fn shade_recursive_bounces_terminate_and_contribute() {
    // the mirror and transmitted rays both strike a surface above the
    // hit point, so the shader recurses (the refraction keeps
    // re-entering the same surface until the depth cap): the result
    // must come back, be lit, and differ from the scene without the
    // bounce target
    let above = Triangle {
        vertices: [
            v3(-S, -S, 5 * S / 2),
            v3(0, S, 5 * S / 2),
            v3(S, -S, 5 * S / 2),
        ],
        pbr_mat: PBRMaterial::from_rgb(200, 200, 200),
    };
    let geom = TriGeometry { objects: vec![above] };
    let empty = TriGeometry { objects: vec![] };
    let lights = vec![white_light_above()];
    let mat = PBRMaterial::from_rgb(255, 255, 255);
    let hit_from = ray(v3(0, 0, S), v3(0, 0, -S));
    let c_scene = shade_with(mat, v3(0, 0, 0), v3(0, 0, -S), &hit_from, &lights, &geom, 0);
    let c_empty = shade_with(mat, v3(0, 0, 0), v3(0, 0, -S), &hit_from, &lights, &empty, 0);
    assert!(c_scene.r.raw > 0);
    assert!(c_empty.r.raw > 0);
    assert_ne!(c_scene.r.raw, c_empty.r.raw);
}

#[test]
fn shade_specular_scales_with_metallic_factor() {
    // head-on view with the light behind the viewer: the specular
    // reflection of the shadow ray lines up with the view ray, so a
    // metallic material adds light where a matte one does not
    let geom = TriGeometry { objects: vec![] };
    let lights = vec![white_light_above()];
    let hit_from = ray(v3(0, 0, S), v3(0, 0, -S));
    let mut matte = PBRMaterial::from_rgb(0, 0, 0);
    matte.metallic_factor = fx(0);
    let mut metal = matte;
    metal.metallic_factor = fx(S);
    let c_matte = shade_with(matte, v3(0, 0, 0), v3(0, 0, -S), &hit_from, &lights, &geom, 0);
    let c_metal = shade_with(metal, v3(0, 0, 0), v3(0, 0, -S), &hit_from, &lights, &geom, 0);
    assert_eq!(c_matte.r.raw, 0);
    assert!(c_metal.r.raw > 0, "metallic specular should contribute");
}
