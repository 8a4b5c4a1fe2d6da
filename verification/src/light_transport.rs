//! Colors, materials, point lights, and the reflection and
//! refraction ray constructors.

use vstd::prelude::*;

use crate::fixed::{fx_add, fx_mul, fx_sub, sat64, Fx, FX_SCALE};
use crate::maths::{fxv, Vec3};
use crate::ray::Ray;

verus! {

/// An 8-bit-per-channel color, the output representation.
#[derive(Clone, Copy, Debug, PartialEq, Eq, Structural)]
pub struct Color {
    pub r: u8,
    pub g: u8,
    pub b: u8,
    pub a: u8,
}

/// A byte channel as a fixed-point value: `byte / 256`.
pub open spec fn byte_to_fx(b: int) -> int {
    b * 256
}

/// A fixed-point channel as a byte: `floor(value * 256)`, clamped
/// into `[0, 255]`.
pub open spec fn fx_to_byte(x: int) -> int {
    if x < 0 {
        0
    } else if x / 256 > 255 {
        255
    } else {
        x / 256
    }
}

/// Byte addition clamped at the channel maximum.
pub open spec fn sat_u8(x: int) -> int {
    if x > 255 {
        255
    } else {
        x
    }
}

impl Color {
    /// An opaque color from three channel bytes.
    pub fn from_rgb(r: u8, g: u8, b: u8) -> (c: Color)
        ensures
            c == (Color { r, g, b, a: 0xFF }),
    {
        Color { r, g, b, a: 0xFF }
    }

    pub open spec fn spec_to_fcolor(self) -> FColor {
        FColor {
            r: fxv(byte_to_fx(self.r as int)),
            g: fxv(byte_to_fx(self.g as int)),
            b: fxv(byte_to_fx(self.b as int)),
        }
    }

    /// The floating-channel view of this color: each byte divided by
    /// 256.
    pub fn to_fcolor(&self) -> (r: FColor)
        ensures
            r == self.spec_to_fcolor(),
    {
        FColor {
            r: Fx { raw: (self.r as i64) * 256 },
            g: Fx { raw: (self.g as i64) * 256 },
            b: Fx { raw: (self.b as i64) * 256 },
        }
    }

    pub open spec fn spec_mul(self, rhs: Fx) -> Color {
        Color {
            r: fx_to_byte(fx_mul(byte_to_fx(self.r as int), rhs.raw as int)) as u8,
            g: fx_to_byte(fx_mul(byte_to_fx(self.g as int), rhs.raw as int)) as u8,
            b: fx_to_byte(fx_mul(byte_to_fx(self.b as int), rhs.raw as int)) as u8,
            a: 0xFF,
        }
    }

    /// Scale a color: each channel is lifted to fixed point,
    /// multiplied, and brought back to a byte; the result is opaque.
    pub fn mul(self, rhs: Fx) -> (r: Color)
        ensures
            r == self.spec_mul(rhs),
    {
        Color {
            r: byte_scale(self.r, rhs),
            g: byte_scale(self.g, rhs),
            b: byte_scale(self.b, rhs),
            a: 0xFF,
        }
    }

    pub open spec fn spec_add(self, rhs: Color) -> Color {
        Color {
            r: sat_u8(self.r as int + rhs.r as int) as u8,
            g: sat_u8(self.g as int + rhs.g as int) as u8,
            b: sat_u8(self.b as int + rhs.b as int) as u8,
            a: sat_u8(self.a as int + rhs.a as int) as u8,
        }
    }

    /// Channel-wise addition, clamped at the channel maximum.
    pub fn add(self, rhs: Color) -> (r: Color)
        ensures
            r == self.spec_add(rhs),
    {
        Color {
            r: byte_sat_add(self.r, rhs.r),
            g: byte_sat_add(self.g, rhs.g),
            b: byte_sat_add(self.b, rhs.b),
            a: byte_sat_add(self.a, rhs.a),
        }
    }

    pub fn add_assign(&mut self, rhs: Color)
        ensures
            *final(self) == old(self).spec_add(rhs),
    {
        *self = self.add(rhs);
    }
}

fn byte_scale(b: u8, rhs: Fx) -> (r: u8)
    ensures
        r == fx_to_byte(fx_mul(byte_to_fx(b as int), rhs.raw as int)),
{
    let f = Fx { raw: (b as i64) * 256 };
    fx_byte(f.mul(rhs))
}

/// Bring a fixed-point channel value back to a byte.
fn fx_byte(x: Fx) -> (r: u8)
    ensures
        r == fx_to_byte(x.raw as int),
{
    if x.raw < 0 {
        0
    } else {
        let q: u64 = (x.raw as u64) / 256;
        if q > 255 {
            255
        } else {
            q as u8
        }
    }
}

fn byte_sat_add(a: u8, b: u8) -> (r: u8)
    ensures
        r == sat_u8(a as int + b as int),
{
    let s: u16 = a as u16 + b as u16;
    if s > 255 {
        255
    } else {
        s as u8
    }
}

/// A linear color for lighting math, one fixed-point value per
/// channel (roughly `[0, 1]` under normal conditions).
#[derive(Clone, Copy, Debug, PartialEq, Eq, Structural)]
pub struct FColor {
    pub r: Fx,
    pub g: Fx,
    pub b: Fx,
}

impl FColor {
    pub fn new(r: Fx, g: Fx, b: Fx) -> (c: FColor)
        ensures
            c == (FColor { r, g, b }),
    {
        FColor { r, g, b }
    }

    /// All channels zero.
    pub fn black() -> (c: FColor)
        ensures
            c == FColor::spec_black(),
    {
        FColor { r: Fx { raw: 0 }, g: Fx { raw: 0 }, b: Fx { raw: 0 } }
    }

    pub open spec fn spec_black() -> FColor {
        FColor { r: fxv(0), g: fxv(0), b: fxv(0) }
    }

    /// All channels one.
    pub fn white() -> (c: FColor)
        ensures
            c == FColor::spec_white(),
    {
        FColor { r: Fx { raw: FX_SCALE }, g: Fx { raw: FX_SCALE }, b: Fx { raw: FX_SCALE } }
    }

    pub open spec fn spec_white() -> FColor {
        FColor { r: fxv(FX_SCALE as int), g: fxv(FX_SCALE as int), b: fxv(FX_SCALE as int) }
    }

    pub open spec fn spec_to_color(self) -> Color {
        Color {
            r: fx_to_byte(self.r.raw as int) as u8,
            g: fx_to_byte(self.g.raw as int) as u8,
            b: fx_to_byte(self.b.raw as int) as u8,
            a: 0xFF,
        }
    }

    /// The byte view: `floor(channel * 256)` clamped to a byte; the
    /// result is opaque.
    pub fn to_color(self) -> (r: Color)
        ensures
            r == self.spec_to_color(),
    {
        Color { r: fx_byte(self.r), g: fx_byte(self.g), b: fx_byte(self.b), a: 0xFF }
    }

    pub open spec fn spec_scale(self, rhs: Fx) -> FColor {
        FColor {
            r: fxv(fx_mul(self.r.raw as int, rhs.raw as int)),
            g: fxv(fx_mul(self.g.raw as int, rhs.raw as int)),
            b: fxv(fx_mul(self.b.raw as int, rhs.raw as int)),
        }
    }

    /// Scale every channel by a scalar.
    pub fn scale(self, rhs: Fx) -> (r: FColor)
        ensures
            r == self.spec_scale(rhs),
    {
        FColor { r: self.r.mul(rhs), g: self.g.mul(rhs), b: self.b.mul(rhs) }
    }

    pub open spec fn spec_mul(self, rhs: FColor) -> FColor {
        FColor {
            r: fxv(fx_mul(self.r.raw as int, rhs.r.raw as int)),
            g: fxv(fx_mul(self.g.raw as int, rhs.g.raw as int)),
            b: fxv(fx_mul(self.b.raw as int, rhs.b.raw as int)),
        }
    }

    /// Channel-wise product (color blending).
    pub fn mul(self, rhs: FColor) -> (r: FColor)
        ensures
            r == self.spec_mul(rhs),
    {
        FColor { r: self.r.mul(rhs.r), g: self.g.mul(rhs.g), b: self.b.mul(rhs.b) }
    }

    pub open spec fn spec_add(self, rhs: FColor) -> FColor {
        FColor {
            r: fxv(fx_add(self.r.raw as int, rhs.r.raw as int)),
            g: fxv(fx_add(self.g.raw as int, rhs.g.raw as int)),
            b: fxv(fx_add(self.b.raw as int, rhs.b.raw as int)),
        }
    }

    /// Channel-wise addition.
    pub fn add(self, rhs: FColor) -> (r: FColor)
        ensures
            r == self.spec_add(rhs),
    {
        FColor { r: self.r.add(rhs.r), g: self.g.add(rhs.g), b: self.b.add(rhs.b) }
    }

    pub fn add_assign(&mut self, rhs: FColor)
        ensures
            *final(self) == old(self).spec_add(rhs),
    {
        *self = self.add(rhs);
    }
}

/// A simplified physically-based material: base color, metallic
/// factor, index of refraction and transmissive factor.
#[derive(Clone, Copy, Debug, PartialEq, Eq, Structural)]
pub struct PBRMaterial {
    pub color: FColor,
    pub metallic_factor: Fx,
    pub ior: Fx,
    pub transmissive: Fx,
}

impl PBRMaterial {
    pub open spec fn spec_from_rgb(r: u8, g: u8, b: u8) -> PBRMaterial {
        PBRMaterial {
            color: (Color { r, g, b, a: 0xFF }).spec_to_fcolor(),
            metallic_factor: fxv(0),
            ior: fxv(FX_SCALE as int),
            transmissive: fxv(0),
        }
    }

    /// A plain diffuse material of the given byte color: no metallic
    /// response, the refractive index of air, no transmission.
    pub fn from_rgb(r: u8, g: u8, b: u8) -> (m: PBRMaterial)
        ensures
            m == PBRMaterial::spec_from_rgb(r, g, b),
    {
        PBRMaterial {
            color: Color::from_rgb(r, g, b).to_fcolor(),
            metallic_factor: Fx { raw: 0 },
            ior: Fx { raw: FX_SCALE },
            transmissive: Fx { raw: 0 },
        }
    }
}

/// A point light: position, color and scalar intensity.
#[derive(Clone, Copy, Debug, PartialEq, Eq, Structural)]
pub struct PointLight {
    pub point: Vec3,
    pub color: Color,
    pub intensity: Fx,
}

/// The mirror reflection of the incoming ray about the normal:
/// `d - 2 (d . n) n`, starting at the hit point, with the incoming
/// parametric interval kept.
pub open spec fn spec_reflect_light(incoming: Ray, normal: Vec3, point: Vec3) -> Ray {
    let twice = fxv(fx_mul(2 * FX_SCALE as int, incoming.dir.spec_dot(normal)));
    Ray {
        pos: point,
        dir: incoming.dir.spec_sub(normal.spec_scale(twice)),
        min: incoming.min,
        max: incoming.max,
    }
}

pub fn reflect_light(incoming: &Ray, normal: Vec3, point: Vec3) -> (r: Ray)
    ensures
        r == spec_reflect_light(*incoming, normal, point),
{
    let twice = Fx { raw: 2 * FX_SCALE }.mul(incoming.dir.scalar_mul(normal));
    Ray {
        pos: point,
        dir: incoming.dir.sub(normal.scale(twice)),
        min: incoming.min,
        max: incoming.max,
    }
}

/// The discriminant-like quantity of Snell's law: with `eta` the
/// relative index of refraction and
/// `c1 = -(d . n)`, this is `(eta c1 - eta)(eta c1 + eta)`, that is
/// `cos^2` of the outgoing angle minus one.
pub open spec fn spec_refract_c2m(incoming: Ray, normal: Vec3, ior: Fx) -> int {
    let c1 = sat64(-incoming.dir.spec_dot(normal));
    let w = fx_mul(ior.raw as int, c1);
    fx_mul(fx_sub(w, ior.raw as int), fx_add(w, ior.raw as int))
}

/// The transmitted ray of Snell's law, or nothing on total internal
/// reflection.
pub open spec fn spec_refract_light(incoming: Ray, normal: Vec3, point: Vec3, ior: Fx) -> Option<
    Ray,
> {
    let c1 = sat64(-incoming.dir.spec_dot(normal));
    let w = fx_mul(ior.raw as int, c1);
    let c2m = spec_refract_c2m(incoming, normal, ior);
    if c2m < -(FX_SCALE as int) {
        None
    } else {
        let root = crate::fixed::fx_sqrt(fx_add(FX_SCALE as int, c2m));
        let along_normal = fxv(fx_sub(w, root));
        Some(
            Ray {
                pos: point,
                dir: incoming.dir.spec_scale(ior).spec_add(normal.spec_scale(along_normal)),
                min: incoming.min,
                max: incoming.max,
            },
        )
    }
}

/// Construct the refracted ray; `None` exactly when the incidence
/// angle is past the critical angle (total internal reflection).
pub fn refract_light(incoming: &Ray, normal: Vec3, point: Vec3, ior: Fx) -> (r: Option<Ray>)
    ensures
        r == spec_refract_light(*incoming, normal, point, ior),
        r is None <==> spec_refract_c2m(*incoming, normal, ior) < -(FX_SCALE as int),
{
    let c1 = incoming.dir.scalar_mul(normal).neg();
    let w = ior.mul(c1);
    let c2m = w.sub(ior).mul(w.add(ior));
    if c2m.raw < -FX_SCALE {
        None
    } else {
        let root = Fx { raw: FX_SCALE }.add(c2m).sqrt();
        let along_normal = w.sub(root);
        Some(
            Ray {
                pos: point,
                dir: incoming.dir.scale(ior).add(normal.scale(along_normal)),
                min: incoming.min,
                max: incoming.max,
            },
        )
    }
}

} // verus!
