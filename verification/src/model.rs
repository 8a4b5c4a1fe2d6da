//! Building renderable triangles from a loaded scene description:
//! vertex positions, an affine node transform, a triangle index
//! list and a material. Reading the scene file itself is an outside
//! concern; this module holds the deterministic interpretation of
//! its contents.

use vstd::prelude::*;

use crate::camera::spec_columns_mul;
use crate::intersections::Triangle;
use crate::light_transport::PBRMaterial;
use crate::maths::Vec3;
use crate::RenderError;

verus! {

/// An affine transform: three linear columns and a translation.
#[derive(Clone, Copy, Debug, PartialEq, Eq, Structural)]
pub struct Transform {
    pub c0: Vec3,
    pub c1: Vec3,
    pub c2: Vec3,
    pub t: Vec3,
}

/// A point carried through the affine transform:
/// `c0 * x + c1 * y + c2 * z + t`.
pub open spec fn spec_transform_point(m: Transform, v: Vec3) -> Vec3 {
    spec_columns_mul(m.c0, m.c1, m.c2, v).spec_add(m.t)
}

/// The vertical-axis swap convention of the scene interchange
/// format: the loaded `y` and `z` change places.
pub open spec fn spec_swap_yz(v: Vec3) -> Vec3 {
    Vec3 { x: v.x, y: v.z, z: v.y }
}

/// A vertex as it enters world space: transformed, then swapped.
pub open spec fn spec_load_vertex(m: Transform, v: Vec3) -> Vec3 {
    spec_swap_yz(spec_transform_point(m, v))
}

fn load_vertex(m: &Transform, v: Vec3) -> (r: Vec3)
    ensures
        r == spec_load_vertex(*m, v),
{
    let p = m.c0.scale(v.x).add(m.c1.scale(v.y)).add(m.c2.scale(v.z)).add(m.t);
    Vec3 { x: p.x, y: p.z, z: p.y }
}

/// Whether every index points into the vertex list.
pub open spec fn indices_in_bounds(indices: Seq<u32>, n_vertices: int) -> bool {
    forall|j: int| 0 <= j < indices.len() ==> indices[j] < n_vertices
}

/// Interpret a triangle index list over transformed vertices.
///
/// The index list must split into whole index triples, and every
/// index must point into the vertex list; each triple becomes one
/// triangle carrying the material, with its vertices transformed
/// and axis-swapped. Malformed input is a hard error, never empty
/// geometry.
pub fn build_triangles(
    vertices: &Vec<Vec3>,
    indices: &Vec<u32>,
    transform: &Transform,
    material: PBRMaterial,
) -> (r: Result<Vec<Triangle>, RenderError>)
    ensures
        indices@.len() % 3 != 0 ==> r === Err(RenderError::DanglingIndices),
        indices@.len() % 3 == 0 && !indices_in_bounds(indices@, vertices@.len() as int) ==> r
            === Err(RenderError::IndexOutOfBounds),
        indices@.len() % 3 == 0 && indices_in_bounds(indices@, vertices@.len() as int) ==> (
        r matches Ok(ts) && ts@.len() == indices@.len() / 3 && (forall|k: int|
            0 <= k < ts@.len() ==> ts@[k].pbr_mat == material && ts@[k].vertices[0]
                == spec_load_vertex(*transform, vertices@[indices@[3 * k] as int])
                && ts@[k].vertices[1] == spec_load_vertex(
                *transform,
                vertices@[indices@[3 * k + 1] as int],
            ) && ts@[k].vertices[2] == spec_load_vertex(
                *transform,
                vertices@[indices@[3 * k + 2] as int],
            ))),
{
    if indices.len() % 3 != 0 {
        return Err(RenderError::DanglingIndices);
    }
    let mut j: usize = 0;
    while j < indices.len()
        invariant
            j <= indices@.len(),
            indices@.len() % 3 == 0,
            forall|i: int| 0 <= i < j ==> indices@[i] < vertices@.len(),
        decreases indices@.len() - j,
    {
        if indices[j] as usize >= vertices.len() {
            return Err(RenderError::IndexOutOfBounds);
        }
        j += 1;
    }
    let n = indices.len() / 3;
    let mut out: Vec<Triangle> = Vec::new();
    let mut k: usize = 0;
    while k < n
        invariant
            k <= n,
            n == indices@.len() / 3,
            indices@.len() % 3 == 0,
            indices@.len() <= usize::MAX as int,
            indices_in_bounds(indices@, vertices@.len() as int),
            out@.len() == k,
            forall|i: int|
                0 <= i < k ==> out@[i].pbr_mat == material && out@[i].vertices[0]
                    == spec_load_vertex(*transform, vertices@[indices@[3 * i] as int])
                    && out@[i].vertices[1] == spec_load_vertex(
                    *transform,
                    vertices@[indices@[3 * i + 1] as int],
                ) && out@[i].vertices[2] == spec_load_vertex(
                    *transform,
                    vertices@[indices@[3 * i + 2] as int],
                ),
        decreases n - k,
    {
        proof {
            assert(3 * (n as int) == indices@.len());
            assert(3 * (k as int) + 2 < 3 * (n as int));
        }
        let i0 = indices[3 * k] as usize;
        let i1 = indices[3 * k + 1] as usize;
        let i2 = indices[3 * k + 2] as usize;
        let v0 = load_vertex(transform, vertices[i0]);
        let v1 = load_vertex(transform, vertices[i1]);
        let v2 = load_vertex(transform, vertices[i2]);
        out.push(Triangle { vertices: [v0, v1, v2], pbr_mat: material });
        k += 1;
    }
    Ok(out)
}

} // verus!
