//! Library-wide laws, stated and proved over the public
//! specifications.

use vstd::prelude::*;

use crate::fixed::{abs_int, lemma_sqrt_floor_props, sqrt_floor, tdivz, FX_SCALE};
use crate::intersections::{hit_t, spec_nearest, valid_hit, with_idx, Intersect};
use crate::maths::{lemma_component_le_norm, lemma_norm2_nonneg, Vec2, Vec3};
use crate::ray::{spec_msaa_pattern, Ray, RayGenerator};

verus! {

proof fn lemma_sqrt_floor_ge(n: int, r: int)
    requires
        n >= 0,
        r >= 0,
        r * r <= n,
    ensures
        sqrt_floor(n) >= r,
{
    lemma_sqrt_floor_props(n);
    let s = sqrt_floor(n);
    if s < r {
        assert((s + 1) * (s + 1) <= r * r) by (nonlinear_arith)
            requires
                0 <= s,
                s + 1 <= r,
        ;
    }
}

proof fn lemma_sqrt_floor_le(n: int, r: int)
    requires
        n >= 0,
        r >= 0,
        n < (r + 1) * (r + 1),
    ensures
        sqrt_floor(n) <= r,
{
    lemma_sqrt_floor_props(n);
    let s = sqrt_floor(n);
    if s > r {
        assert((r + 1) * (r + 1) <= s * s) by (nonlinear_arith)
            requires
                0 <= r,
                r + 1 <= s,
        ;
    }
}

/// Truncation toward zero keeps the sign and divides the magnitude
/// with floor rounding.
proof fn lemma_tdivz_mag(a: int, b: int)
    requires
        b > 0,
    ensures
        abs_int(tdivz(a, b)) == abs_int(a) / b,
        abs_int(tdivz(a, b)) * b <= abs_int(a),
        abs_int(a) < (abs_int(tdivz(a, b)) + 1) * b,
        a >= 0 ==> tdivz(a, b) >= 0,
        a <= 0 ==> tdivz(a, b) <= 0,
{
    let m = abs_int(a);
    let q = m / b;
    vstd::arithmetic::div_mod::lemma_fundamental_div_mod(m, b);
    vstd::arithmetic::div_mod::lemma_mod_bound(m, b);
    assert(q >= 0) by (nonlinear_arith)
        requires
            m >= 0,
            b > 0,
            m == b * q + (m % b),
            0 <= m % b < b,
    ;
    assert(q * b <= m && m < (q + 1) * b) by (nonlinear_arith)
        requires
            m == b * q + (m % b),
            0 <= m % b < b,
    ;
}

/// One normalized component, squared: bounded above by the ideal
/// ratio and below by the ideal ratio minus the truncation loss.
proof fn lemma_norm_component_square(q: int, a: int, l: int, s: int)
    requires
        l > 0,
        s > 0,
        a >= 0,
        q >= 0,
        q * l <= a * s,
        a * s < (q + 1) * l,
    ensures
        q * q * (l * l) <= (a * a) * (s * s),
        q * q * (l * l) >= (a * a) * (s * s) - 2 * (a * s) * l,
{
    assert(q * q * (l * l) <= (a * a) * (s * s)) by (nonlinear_arith)
        requires
            q >= 0,
            l > 0,
            a >= 0,
            s > 0,
            q * l <= a * s,
    ;
    assert(a * s >= 0) by (nonlinear_arith)
        requires
            a >= 0,
            s > 0,
    ;
    if a * s >= l {
        assert(q * q * (l * l) >= (a * a) * (s * s) - 2 * (a * s) * l) by (nonlinear_arith)
            requires
                l > 0,
                a * s >= l,
                a * s < (q + 1) * l,
                q >= 0,
        ;
    } else {
        assert(q == 0) by (nonlinear_arith)
            requires
                q >= 0,
                l > 0,
                q * l <= a * s,
                a * s < l,
        ;
        assert(q * q * (l * l) >= (a * a) * (s * s) - 2 * (a * s) * l) by (nonlinear_arith)
            requires
                q == 0,
                0 <= a * s < l,
        ;
    }
}

/// The facts shared by the two normalization laws: with the vector
/// at least unit length, each normalized raw component has magnitude
/// at most the scale, and the normalized vector's exact squared norm
/// lies between `(S - 4)^2` and `(S + 1)^2 - 1`.
proof fn lemma_normalize_bounds(v: Vec3)
    requires
        v.norm2() >= (FX_SCALE as int) * (FX_SCALE as int),
    ensures
        v.norm2() > 0,
        (FX_SCALE - 4) as int <= sqrt_floor(v.spec_normalize().norm2()) <= FX_SCALE as int,
        v.spec_normalize().x.raw as int == tdivz(
            (v.x.raw as int) * (FX_SCALE as int),
            sqrt_floor(v.norm2()),
        ),
        v.spec_normalize().y.raw as int == tdivz(
            (v.y.raw as int) * (FX_SCALE as int),
            sqrt_floor(v.norm2()),
        ),
        v.spec_normalize().z.raw as int == tdivz(
            (v.z.raw as int) * (FX_SCALE as int),
            sqrt_floor(v.norm2()),
        ),
{
    let s = FX_SCALE as int;
    let n2 = v.norm2();
    lemma_norm2_nonneg(v);
    lemma_sqrt_floor_props(n2);
    let l = sqrt_floor(n2);
    assert(s * s > 0) by (nonlinear_arith)
        requires
            s == 65536,
    ;
    lemma_sqrt_floor_ge(n2, s);
    lemma_component_le_norm(v);

    let x = v.x.raw as int;
    let y = v.y.raw as int;
    let z = v.z.raw as int;
    let ax = abs_int(x);
    let ay = abs_int(y);
    let az = abs_int(z);
    assert(ax * ax == x * x && ay * ay == y * y && az * az == z * z) by (nonlinear_arith)
        requires
            ax == x || ax == -x,
            ay == y || ay == -y,
            az == z || az == -z,
    ;
    let axs = abs_int(x * s);
    let ays = abs_int(y * s);
    let azs = abs_int(z * s);
    assert(axs == ax * s && ays == ay * s && azs == az * s) by (nonlinear_arith)
        requires
            s > 0,
            ax == x || ax == -x,
            ay == y || ay == -y,
            az == z || az == -z,
            ax >= 0,
            ay >= 0,
            az >= 0,
            axs == x * s || axs == -(x * s),
            ays == y * s || ays == -(y * s),
            azs == z * s || azs == -(z * s),
            axs >= 0,
            ays >= 0,
            azs >= 0,
    ;

    lemma_tdivz_mag(x * s, l);
    lemma_tdivz_mag(y * s, l);
    lemma_tdivz_mag(z * s, l);
    let qx = tdivz(x * s, l);
    let qy = tdivz(y * s, l);
    let qz = tdivz(z * s, l);
    let ux = abs_int(qx);
    let uy = abs_int(qy);
    let uz = abs_int(qz);

    // each magnitude is at most the scale
    assert(ux <= s && uy <= s && uz <= s) by (nonlinear_arith)
        requires
            l > 0,
            s > 0,
            ux >= 0,
            uy >= 0,
            uz >= 0,
            ux * l <= ax * s,
            uy * l <= ay * s,
            uz * l <= az * s,
            ax <= l,
            ay <= l,
            az <= l,
    ;
    // so the raw components are exactly the truncated quotients
    assert(v.spec_normalize().x.raw as int == qx && v.spec_normalize().y.raw as int == qy
        && v.spec_normalize().z.raw as int == qz);

    let m = v.spec_normalize().norm2();
    assert(m == qx * qx + qy * qy + qz * qz);
    assert(qx * qx == ux * ux && qy * qy == uy * uy && qz * qz == uz * uz) by (nonlinear_arith)
        requires
            ux == qx || ux == -qx,
            uy == qy || uy == -qy,
            uz == qz || uz == -qz,
    ;
    assert(m >= 0) by (nonlinear_arith)
        requires
            m == ux * ux + uy * uy + uz * uz,
            ux >= 0,
            uy >= 0,
            uz >= 0,
    ;

    lemma_norm_component_square(ux, ax, l, s);
    lemma_norm_component_square(uy, ay, l, s);
    lemma_norm_component_square(uz, az, l, s);

    // distribute the sums over the common factors
    assert(m * (l * l) == ux * ux * (l * l) + uy * uy * (l * l) + uz * uz * (l * l))
        by (nonlinear_arith)
        requires
            m == ux * ux + uy * uy + uz * uz,
    ;
    assert(n2 * (s * s) == (ax * ax) * (s * s) + (ay * ay) * (s * s) + (az * az) * (s * s))
        by (nonlinear_arith)
        requires
            n2 == ax * ax + ay * ay + az * az,
    ;

    // upper bound: m * l^2 <= n2 * s^2 <= (l^2 + 2l) * s^2 < (s+1)^2 * l^2
    assert(m * (l * l) <= n2 * (s * s));
    assert((l + 1) * (l + 1) == l * l + 2 * l + 1) by (nonlinear_arith);
    vstd::arithmetic::mul::lemma_mul_inequality(n2, l * l + 2 * l, s * s);
    assert((s + 1) * (s + 1) * (l * l) > (l * l + 2 * l) * (s * s)) by (nonlinear_arith)
        requires
            l >= s,
            s >= 2,
    ;
    if m >= (s + 1) * (s + 1) {
        vstd::arithmetic::mul::lemma_mul_inequality((s + 1) * (s + 1), m, l * l);
        assert(false);
    }
    lemma_sqrt_floor_le(m, s);

    // lower bound: m * l^2 >= n2 * s^2 - 2 s l (ax + ay + az) >= (s^2 - 6 s) l^2
    assert(m * (l * l) >= n2 * (s * s) - 2 * (ax * s) * l - 2 * (ay * s) * l - 2 * (az * s) * l);
    assert((ax * s) * l <= (l * s) * l && (ay * s) * l <= (l * s) * l && (az * s) * l <= (l * s)
        * l) by (nonlinear_arith)
        requires
            0 <= ax <= l,
            0 <= ay <= l,
            0 <= az <= l,
            s > 0,
            l > 0,
    ;
    assert(2 * (ax * s) * l == 2 * ((ax * s) * l) && 2 * (ay * s) * l == 2 * ((ay * s) * l) && 2
        * (az * s) * l == 2 * ((az * s) * l)) by (nonlinear_arith);
    vstd::arithmetic::mul::lemma_mul_inequality(l * l, n2, s * s);
    assert((l * l) * (s * s) - 6 * ((l * s) * l) == (s * s - 6 * s) * (l * l))
        by (nonlinear_arith);
    assert(m * (l * l) >= (s * s - 6 * s) * (l * l));
    assert(m >= s * s - 6 * s) by (nonlinear_arith)
        requires
            m * (l * l) >= (s * s - 6 * s) * (l * l),
            l >= 1,
    ;
    assert((s - 4) * (s - 4) <= s * s - 6 * s) by (nonlinear_arith)
        requires
            s >= 8,
    ;
    lemma_sqrt_floor_ge(m, s - 4);
}

/// Normalization produces unit length, within fixed-point
/// tolerance: for a vector of length at least one, the length of the
/// normalized vector lies within `4 * 2^-16` of one.
pub proof fn lemma_normalize_unit_length(v: Vec3)
    requires
        v.norm2() >= (FX_SCALE as int) * (FX_SCALE as int),
    ensures
        (FX_SCALE - 4) as int <= v.spec_normalize().spec_length().raw as int <= FX_SCALE as int,
{
    lemma_normalize_bounds(v);
}

/// Normalization is idempotent, within fixed-point tolerance: for a
/// vector of length at least one, normalizing its normalization
/// moves every raw component by at most 4 (about `6 * 10^-5`).
pub proof fn lemma_normalize_idempotent(v: Vec3)
    requires
        v.norm2() >= (FX_SCALE as int) * (FX_SCALE as int),
    ensures
        abs_int(
            v.spec_normalize().spec_normalize().x.raw - v.spec_normalize().x.raw as int,
        ) <= 4,
        abs_int(
            v.spec_normalize().spec_normalize().y.raw - v.spec_normalize().y.raw as int,
        ) <= 4,
        abs_int(
            v.spec_normalize().spec_normalize().z.raw - v.spec_normalize().z.raw as int,
        ) <= 4,
{
    let s = FX_SCALE as int;
    lemma_normalize_bounds(v);
    let n = v.spec_normalize();
    let m = n.norm2();
    lemma_norm2_nonneg(n);
    lemma_sqrt_floor_props(m);
    let l2 = sqrt_floor(m);
    assert(m > 0) by {
        if m == 0 {
            assert(sqrt_floor(0int) == 0);
        }
    }
    lemma_component_le_norm(n);
    lemma_normalize_idempotent_component(n.x.raw as int, l2, s);
    lemma_normalize_idempotent_component(n.y.raw as int, l2, s);
    lemma_normalize_idempotent_component(n.z.raw as int, l2, s);
    assert(n.spec_normalize().x.raw as int == tdivz(n.x.raw as int * s, l2) && n.spec_normalize().y.raw as int
        == tdivz(n.y.raw as int * s, l2) && n.spec_normalize().z.raw as int == tdivz(
        n.z.raw as int * s,
        l2,
    ));
}

/// One component of the second normalization moves by at most 4 raw
/// units from the first.
proof fn lemma_normalize_idempotent_component(c: int, l2: int, s: int)
    requires
        s == FX_SCALE as int,
        s - 4 <= l2 <= s,
        abs_int(c) <= l2,
    ensures
        abs_int(tdivz(c * s, l2) - c) <= 4,
        abs_int(tdivz(c * s, l2)) <= abs_int(c) + 4,
{
    let u = abs_int(c);
    lemma_tdivz_mag(c * s, l2);
    let q = tdivz(c * s, l2);
    let u2 = abs_int(q);
    let ucs = abs_int(c * s);
    assert(ucs == u * s) by (nonlinear_arith)
        requires
            s > 0,
            u == c || u == -c,
            u >= 0,
            ucs == c * s || ucs == -(c * s),
            ucs >= 0,
    ;
    // u2 >= u
    assert(u2 >= u) by (nonlinear_arith)
        requires
            u * s < (u2 + 1) * l2,
            0 < l2 <= s,
            u >= 0,
            u2 >= 0,
    ;
    // u2 <= u + 4
    assert(u2 <= u + 4) by (nonlinear_arith)
        requires
            u2 * l2 <= u * s,
            s - 4 <= l2 <= s,
            0 <= u <= l2,
            u2 >= 0,
            s == 65536,
    ;
    if c >= 0 {
        assert(q >= 0) by {
            assert(c * s >= 0) by (nonlinear_arith)
                requires
                    c >= 0,
                    s > 0,
            ;
        }
    } else {
        assert(q <= 0) by {
            assert(c * s <= 0) by (nonlinear_arith)
                requires
                    c <= 0,
                    s > 0,
            ;
        }
    }
}

/// Zero-vector safety: normalizing the zero vector yields the zero
/// vector again (no degenerate division takes place).
pub proof fn lemma_normalize_zero_is_zero(v: Vec3)
    requires
        v.x.raw == 0,
        v.y.raw == 0,
        v.z.raw == 0,
    ensures
        v.spec_normalize() == v,
{
    assert(v.norm2() == 0);
}

/// Nearest-hit selection: whenever some object yields a valid
/// in-range hit, the aggregate result is a hit no farther than any
/// of them.
pub proof fn lemma_nearest_is_minimal<T: Intersect>(objects: Seq<T>, ray: Ray)
    ensures
        forall|j: int|
            0 <= j < objects.len() && valid_hit(
                #[trigger] objects[j].spec_intersect(ray),
                ray,
            ) ==> spec_nearest(objects, ray) is Hit && hit_t(spec_nearest(objects, ray)) <= hit_t(
                objects[j].spec_intersect(ray),
            ),
    decreases objects.len(),
{
    if objects.len() > 0 {
        let prefix = objects.drop_last();
        lemma_nearest_is_minimal(prefix, ray);
        assert forall|j: int|
            0 <= j < objects.len() && valid_hit(
                #[trigger] objects[j].spec_intersect(ray),
                ray,
            ) implies spec_nearest(objects, ray) is Hit && hit_t(spec_nearest(objects, ray))
            <= hit_t(objects[j].spec_intersect(ray)) by {
            if j < objects.len() - 1 {
                assert(prefix[j] == objects[j]);
            }
        }
    }
}

/// Nearest-hit selection, the other direction: a hit returned by the
/// aggregate is the (index-tagged) intersection of one of its
/// objects, valid for the ray.
pub proof fn lemma_nearest_comes_from_an_object<T: Intersect>(objects: Seq<T>, ray: Ray)
    requires
        spec_nearest(objects, ray) is Hit,
    ensures
        exists|j: int|
            0 <= j < objects.len() && valid_hit(#[trigger] objects[j].spec_intersect(ray), ray)
                && spec_nearest(objects, ray) == with_idx(objects[j].spec_intersect(ray), j as usize),
    decreases objects.len(),
{
    let prefix = objects.drop_last();
    let cand = objects.last().spec_intersect(ray);
    let prev = spec_nearest(prefix, ray);
    if valid_hit(cand, ray) && (!(prev is Hit) || hit_t(cand) < hit_t(prev)) {
        let j = objects.len() - 1;
        assert(0 <= j < objects.len() && valid_hit(objects[j as int].spec_intersect(ray), ray)
            && spec_nearest(objects, ray) == with_idx(
            objects[j as int].spec_intersect(ray),
            j as usize,
        ));
    } else {
        lemma_nearest_comes_from_an_object(prefix, ray);
        let j = choose|j: int|
            0 <= j < prefix.len() && valid_hit(#[trigger] prefix[j].spec_intersect(ray), ray)
                && spec_nearest(prefix, ray) == with_idx(prefix[j].spec_intersect(ray), j as usize);
        assert(prefix[j] == objects[j]);
    }
}

/// Two overlapping primitives along one ray, the first strictly
/// nearer: the aggregate returns the nearer hit's data whichever
/// order the collection lists them in; only the reported index
/// follows the position.
pub proof fn lemma_nearest_two_order_independent<T: Intersect>(a: T, b: T, ray: Ray)
    requires
        valid_hit(a.spec_intersect(ray), ray),
        valid_hit(b.spec_intersect(ray), ray),
        hit_t(a.spec_intersect(ray)) < hit_t(b.spec_intersect(ray)),
    ensures
        spec_nearest(seq![a, b], ray) == with_idx(a.spec_intersect(ray), 0),
        spec_nearest(seq![b, a], ray) == with_idx(a.spec_intersect(ray), 1),
{
    let ab = seq![a, b];
    let ba = seq![b, a];
    assert(ab.drop_last() =~= seq![a]);
    assert(ba.drop_last() =~= seq![b]);
    assert(seq![a].drop_last() =~= Seq::<T>::empty());
    assert(seq![b].drop_last() =~= Seq::<T>::empty());
    assert(spec_nearest(Seq::<T>::empty(), ray) is Miss);
    assert(seq![a].last() == a && seq![b].last() == b);
    assert(ab.last() == b && ba.last() == a);
    assert(spec_nearest(seq![a], ray) == with_idx(a.spec_intersect(ray), 0));
    assert(spec_nearest(seq![b], ray) == with_idx(b.spec_intersect(ray), 0));
}

/// Sampling determinism: the multi-sample contract determines the
/// ray list uniquely, so two sample lists produced for identical
/// inputs are identical, ray for ray.
pub proof fn lemma_gen_samples_deterministic<T: RayGenerator>(
    g: T,
    pixel: Vec2,
    samples: int,
    r1: Seq<Ray>,
    r2: Seq<Ray>,
)
    requires
        r1.len() == spec_msaa_pattern(samples).len(),
        forall|j: int|
            0 <= j < r1.len() ==> r1[j] == g.spec_gen_ray(
                pixel.spec_add(spec_msaa_pattern(samples)[j]),
            ),
        r2.len() == spec_msaa_pattern(samples).len(),
        forall|j: int|
            0 <= j < r2.len() ==> r2[j] == g.spec_gen_ray(
                pixel.spec_add(spec_msaa_pattern(samples)[j]),
            ),
    ensures
        r1 == r2,
{
    assert(r1 =~= r2);
}

} // verus!
