//! Icosphere mesh generation.
//!
//! A unit sphere is approximated by starting from a regular icosahedron and
//! repeatedly splitting every triangle into four, pushing the new edge
//! midpoints out to the sphere surface. Coordinates are fixed-point scalars
//! (see [`crate::fixed`]): an `i64` is the real coordinate times
//! [`SCALE`]. The mesh is emitted as a flat, fully expanded buffer of
//! coordinates, three vertices per triangle, with no index buffer and no
//! sharing of midpoint vertices between adjacent triangles; the flat layout
//! is what a GPU vertex buffer holds.

use vstd::prelude::*;

use crate::fixed::{div_round_toward_zero, div_trunc, is_sqrt_floor, isqrt, lemma_div_trunc_remainder,
    lemma_sqrt_floor_is_sqrt, sqrt_floor, SCALE};
use vstd::arithmetic::div_mod::{lemma_div_by_multiple, lemma_div_is_ordered};
use vstd::arithmetic::mul::lemma_mul_inequality;

verus! {

/// Largest coordinate magnitude (2^30) the mesh operations accept; keeps all
/// intermediate products inside `i64`.
pub const COORD_ABS_MAX: i64 = 0x4000_0000;

/// One mesh vertex: a point with fixed-point coordinates.
#[derive(Clone, Copy, PartialEq, Eq, Structural, Debug)]
pub struct Vertex {
    pub x: i64,
    pub y: i64,
    pub z: i64,
}

/// One triangle: three indices into a vertex list.
#[derive(Clone, Copy, PartialEq, Eq, Structural, Debug)]
pub struct Triangle {
    pub a: usize,
    pub b: usize,
    pub c: usize,
}

/// The coordinates of `v` are within [`COORD_ABS_MAX`].
pub open spec fn vertex_ok(v: Vertex) -> bool {
    &&& -COORD_ABS_MAX <= v.x <= COORD_ABS_MAX
    &&& -COORD_ABS_MAX <= v.y <= COORD_ABS_MAX
    &&& -COORD_ABS_MAX <= v.z <= COORD_ABS_MAX
}

/// The coordinates of `v` are within one unit ([`SCALE`]).
pub open spec fn vertex_unit_box(v: Vertex) -> bool {
    &&& -SCALE <= v.x <= SCALE
    &&& -SCALE <= v.y <= SCALE
    &&& -SCALE <= v.z <= SCALE
}

/// Squared length of `v`, in squared fixed-point units.
pub open spec fn norm2(v: Vertex) -> int {
    v.x * v.x + v.y * v.y + v.z * v.z
}

/// Componentwise average, rounding toward zero.
pub open spec fn mid_val(a: int, b: int) -> int {
    div_trunc(a + b, 2)
}

/// The midpoint of `a` and `b`.
pub open spec fn spec_midpoint(a: Vertex, b: Vertex) -> Vertex {
    Vertex {
        x: mid_val(a.x as int, b.x as int) as i64,
        y: mid_val(a.y as int, b.y as int) as i64,
        z: mid_val(a.z as int, b.z as int) as i64,
    }
}

/// `v` scaled to unit length (zero stays zero): each coordinate becomes
/// `c * SCALE / sqrt(norm2(v))`, rounding toward zero.
pub open spec fn spec_normalize(v: Vertex) -> Vertex {
    if norm2(v) == 0 {
        Vertex { x: 0, y: 0, z: 0 }
    } else {
        let l = sqrt_floor(norm2(v) as nat) as int;
        Vertex {
            x: div_trunc(v.x * SCALE, l) as i64,
            y: div_trunc(v.y * SCALE, l) as i64,
            z: div_trunc(v.z * SCALE, l) as i64,
        }
    }
}

/// A coordinate whose square is below `norm2` is bounded by the root of `norm2`.
proof fn lemma_component_le_sqrt(x: int, n2: int, l: int)
    requires
        x * x <= n2,
        is_sqrt_floor(n2, l),
    ensures
        -l <= x <= l,
{
    assert(-l <= x <= l) by (nonlinear_arith)
        requires
            x * x <= n2,
            0 <= l,
            n2 < (l + 1) * (l + 1),
    ;
}

/// Scaling a coordinate bounded by `l` and dividing by `l` stays within one unit.
proof fn lemma_scaled_div_bound(x: int, l: int)
    requires
        1 <= l,
        -l <= x <= l,
    ensures
        -SCALE <= div_trunc(x * SCALE, l) <= SCALE,
{
    if x >= 0 {
        lemma_mul_inequality(x, l, SCALE as int);
        lemma_div_is_ordered(x * SCALE, l * SCALE, l);
        lemma_div_by_multiple(SCALE as int, l);
        assert(l * SCALE == SCALE * l) by (nonlinear_arith);
        assert(x * SCALE >= 0) by (nonlinear_arith)
            requires
                x >= 0,
        ;
        assert(x * SCALE / l >= 0) by {
            vstd::arithmetic::div_mod::lemma_div_pos_is_pos(x * SCALE, l);
        }
    } else {
        let y = -x;
        lemma_mul_inequality(y, l, SCALE as int);
        lemma_div_is_ordered(y * SCALE, l * SCALE, l);
        lemma_div_by_multiple(SCALE as int, l);
        assert(l * SCALE == SCALE * l) by (nonlinear_arith);
        assert(y * SCALE >= 0) by (nonlinear_arith)
            requires
                y >= 0,
        ;
        assert(y * SCALE / l >= 0) by {
            vstd::arithmetic::div_mod::lemma_div_pos_is_pos(y * SCALE, l);
        }
        assert((-x) * SCALE == -(x * SCALE)) by (nonlinear_arith);
    }
}

/// The midpoint of two vectors: the componentwise average, rounding toward
/// zero.
pub fn midpoint(a: Vertex, b: Vertex) -> (r: Vertex)
    requires
        vertex_ok(a),
        vertex_ok(b),
    ensures
        r == spec_midpoint(a, b),
        vertex_ok(r),
{
    let r = Vertex {
        x: div_round_toward_zero(a.x + b.x, 2),
        y: div_round_toward_zero(a.y + b.y, 2),
        z: div_round_toward_zero(a.z + b.z, 2),
    };
    r
}

/// Scale `v` to the unit sphere. A zero vector is returned unchanged, guarding
/// the degenerate divide-by-zero; any other vector is scaled by
/// `SCALE / sqrt(norm2(v))`.
pub fn normalize(v: Vertex) -> (r: Vertex)
    requires
        vertex_ok(v),
    ensures
        r == spec_normalize(v),
        vertex_unit_box(r),
{
    proof {
        assert((v.x as int) * (v.x as int) <= 0x1000_0000_0000_0000
            && (v.y as int) * (v.y as int) <= 0x1000_0000_0000_0000
            && (v.z as int) * (v.z as int) <= 0x1000_0000_0000_0000
            && (v.x as int) * (v.x as int) >= 0
            && (v.y as int) * (v.y as int) >= 0
            && (v.z as int) * (v.z as int) >= 0) by (nonlinear_arith)
            requires
                -COORD_ABS_MAX <= v.x <= COORD_ABS_MAX,
                -COORD_ABS_MAX <= v.y <= COORD_ABS_MAX,
                -COORD_ABS_MAX <= v.z <= COORD_ABS_MAX,
        ;
    }
    let n2: i64 = v.x * v.x + v.y * v.y + v.z * v.z;
    if n2 == 0 {
        Vertex { x: 0, y: 0, z: 0 }
    } else {
        let l: u64 = isqrt(n2 as u64);
        proof {
            assert(l >= 1) by (nonlinear_arith)
                requires
                    (n2 as int) < ((l as int) + 1) * ((l as int) + 1),
                    n2 >= 1,
            ;
            assert(l < 0x8000_0000u64) by (nonlinear_arith)
                requires
                    (l as int) * (l as int) <= n2 as int,
                    n2 < 0x4000_0000_0000_0000i64,
            ;
            lemma_component_le_sqrt(v.x as int, n2 as int, l as int);
            lemma_component_le_sqrt(v.y as int, n2 as int, l as int);
            lemma_component_le_sqrt(v.z as int, n2 as int, l as int);
            lemma_scaled_div_bound(v.x as int, l as int);
            lemma_scaled_div_bound(v.y as int, l as int);
            lemma_scaled_div_bound(v.z as int, l as int);
        }
        let r = Vertex {
            x: div_round_toward_zero(v.x * SCALE, l as i64),
            y: div_round_toward_zero(v.y * SCALE, l as i64),
            z: div_round_toward_zero(v.z * SCALE, l as i64),
        };
        r
    }
}

/// One component's contribution to the squared norm of a normalized vector,
/// written against its division remainder.
proof fn lemma_normalize_component(x: int, l: int) -> (qe: (int, int))
    requires
        1 <= l,
        -l <= x <= l,
    ensures
        qe.0 == div_trunc(x * SCALE, l),
        qe.0 * l == x * SCALE - qe.1,
        0 <= (x * SCALE) * qe.1 <= SCALE * (l * l),
        0 <= qe.1 * qe.1 <= l * l,
        (qe.0 * qe.0) * (l * l) == (x * SCALE) * (x * SCALE) - 2 * ((x * SCALE) * qe.1) + qe.1
            * qe.1,
{
    let s = SCALE as int;
    let a = x * s;
    lemma_div_trunc_remainder(a, l);
    let q = div_trunc(a, l);
    let e = a - q * l;
    if x >= 0 {
        assert(a >= 0) by (nonlinear_arith)
            requires
                x >= 0,
                s > 0,
                a == x * s,
        ;
    } else {
        assert(a < 0) by (nonlinear_arith)
            requires
                x < 0,
                s > 0,
                a == x * s,
        ;
    }
    assert(0 <= a * e) by (nonlinear_arith)
        requires
            (a >= 0 && 0 <= e) || (a < 0 && e <= 0),
    ;
    assert(-(l * s) <= a <= l * s) by (nonlinear_arith)
        requires
            -l <= x <= l,
            s > 0,
            a == x * s,
    ;
    assert(a * e <= s * (l * l)) by (nonlinear_arith)
        requires
            -(l * s) <= a <= l * s,
            -l <= e <= l,
            (a >= 0 && 0 <= e) || (a < 0 && e <= 0),
            l >= 1,
            s > 0,
    ;
    assert(0 <= e * e <= l * l) by (nonlinear_arith)
        requires
            -l <= e <= l,
    ;
    assert((q * q) * (l * l) == a * a - 2 * (a * e) + e * e) by (nonlinear_arith)
        requires
            q * l == a - e,
    ;
    (q, e)
}

/// Law: normalizing any vector at least half a unit long lands it on the unit
/// sphere: the squared length of the result differs from one squared unit by
/// at most a few parts in [`SCALE`].
pub proof fn lemma_normalize_unit_norm(v: Vertex)
    requires
        vertex_ok(v),
        4 * norm2(v) >= SCALE * SCALE,
    ensures
        SCALE * SCALE - 6 * SCALE <= norm2(spec_normalize(v)),
        norm2(spec_normalize(v)) <= SCALE * SCALE + 4 * SCALE + 3,
{
    let s = SCALE as int;
    let n2 = norm2(v);
    assert(n2 >= 1);
    lemma_sqrt_floor_is_sqrt(n2 as nat);
    let l = sqrt_floor(n2 as nat) as int;
    assert(l >= 1) by (nonlinear_arith)
        requires
            n2 < (l + 1) * (l + 1),
            l >= 0,
            n2 >= 1,
    ;
    assert(2 * l >= s) by (nonlinear_arith)
        requires
            4 * n2 >= s * s,
            n2 < (l + 1) * (l + 1),
            l >= 1,
            s == SCALE,
    ;
    assert((v.x as int) * (v.x as int) <= n2 && (v.y as int) * (v.y as int) <= n2 && (v.z as int)
        * (v.z as int) <= n2) by (nonlinear_arith)
        requires
            n2 == v.x * v.x + v.y * v.y + v.z * v.z,
    ;
    lemma_component_le_sqrt(v.x as int, n2, l);
    lemma_component_le_sqrt(v.y as int, n2, l);
    lemma_component_le_sqrt(v.z as int, n2, l);
    let (qx, ex) = lemma_normalize_component(v.x as int, l);
    let (qy, ey) = lemma_normalize_component(v.y as int, l);
    let (qz, ez) = lemma_normalize_component(v.z as int, l);
    let sum_q = qx * qx + qy * qy + qz * qz;
    let sum_a = (v.x * SCALE) * ex + (v.y * SCALE) * ey + (v.z * SCALE) * ez;
    let sum_e = ex * ex + ey * ey + ez * ez;
    assert(((v.x * SCALE)) * ((v.x * SCALE)) + ((v.y * SCALE)) * ((v.y * SCALE)) + ((v.z * SCALE))
        * ((v.z * SCALE)) == (s * s) * n2) by (nonlinear_arith)
        requires
            s == SCALE,
            n2 == v.x * v.x + v.y * v.y + v.z * v.z,
    ;
    assert(sum_q * (l * l) == (s * s) * n2 - 2 * sum_a + sum_e) by (nonlinear_arith)
        requires
            (qx * qx) * (l * l) == (v.x * SCALE) * (v.x * SCALE) - 2 * ((v.x * SCALE) * ex) + ex
                * ex,
            (qy * qy) * (l * l) == (v.y * SCALE) * (v.y * SCALE) - 2 * ((v.y * SCALE) * ey) + ey
                * ey,
            (qz * qz) * (l * l) == (v.z * SCALE) * (v.z * SCALE) - 2 * ((v.z * SCALE) * ez) + ez
                * ez,
            (v.x * SCALE) * (v.x * SCALE) + (v.y * SCALE) * (v.y * SCALE) + (v.z * SCALE) * (v.z
                * SCALE) == (s * s) * n2,
            sum_q == qx * qx + qy * qy + qz * qz,
            sum_a == (v.x * SCALE) * ex + (v.y * SCALE) * ey + (v.z * SCALE) * ez,
            sum_e == ex * ex + ey * ey + ez * ez,
    ;
    // the squared root brackets the squared norm
    assert(l * l <= n2 && n2 <= l * l + 2 * l) by (nonlinear_arith)
        requires
            l * l <= n2,
            n2 < (l + 1) * (l + 1),
    ;
    // upper bound: the remainder terms add at most (4s + 3) l^2
    assert(sum_q * (l * l) <= (s * s + 4 * s + 3) * (l * l)) by (nonlinear_arith)
        requires
            sum_q * (l * l) == (s * s) * n2 - 2 * sum_a + sum_e,
            n2 <= l * l + 2 * l,
            0 <= sum_a,
            sum_e <= 3 * (l * l),
            2 * l >= s,
            l >= 1,
            s >= 2,
    ;
    // lower bound: the remainder terms remove at most 6 s l^2
    assert((s * s - 6 * s) * (l * l) <= sum_q * (l * l)) by (nonlinear_arith)
        requires
            sum_q * (l * l) == (s * s) * n2 - 2 * sum_a + sum_e,
            l * l <= n2,
            sum_a <= 3 * (s * (l * l)),
            0 <= sum_e,
            l >= 1,
            s >= 2,
    ;
    assert(s * s - 6 * s <= sum_q <= s * s + 4 * s + 3) by (nonlinear_arith)
        requires
            (s * s - 6 * s) * (l * l) <= sum_q * (l * l),
            sum_q * (l * l) <= (s * s + 4 * s + 3) * (l * l),
            l >= 1,
    ;
    // the components of the normalized vector are exactly those quotients
    lemma_scaled_div_bound(v.x as int, l);
    lemma_scaled_div_bound(v.y as int, l);
    lemma_scaled_div_bound(v.z as int, l);
    assert(spec_normalize(v).x == qx && spec_normalize(v).y == qy && spec_normalize(v).z == qz);
}

/// Fixed-point value of the smaller golden-ratio icosahedron coordinate
/// (about 0.5257311 units).
pub const ICO_A: i64 = 8820304;

/// Fixed-point value of the larger golden-ratio icosahedron coordinate
/// (about 0.8506508 units).
pub const ICO_B: i64 = 14271552;

/// The 12 vertices of the base icosahedron.
pub open spec fn base_vertices() -> Seq<Vertex> {
    seq![
        Vertex { x: (-ICO_A) as i64, y: ICO_B, z: 0 },
        Vertex { x: ICO_A, y: ICO_B, z: 0 },
        Vertex { x: (-ICO_A) as i64, y: (-ICO_B) as i64, z: 0 },
        Vertex { x: ICO_A, y: (-ICO_B) as i64, z: 0 },
        Vertex { x: 0, y: (-ICO_A) as i64, z: ICO_B },
        Vertex { x: 0, y: ICO_A, z: ICO_B },
        Vertex { x: 0, y: (-ICO_A) as i64, z: (-ICO_B) as i64 },
        Vertex { x: 0, y: ICO_A, z: (-ICO_B) as i64 },
        Vertex { x: ICO_B, y: 0, z: (-ICO_A) as i64 },
        Vertex { x: ICO_B, y: 0, z: ICO_A },
        Vertex { x: (-ICO_B) as i64, y: 0, z: (-ICO_A) as i64 },
        Vertex { x: (-ICO_B) as i64, y: 0, z: ICO_A },
    ]
}

/// The 20 faces of the base icosahedron.
pub open spec fn base_triangles() -> Seq<Triangle> {
    seq![
        Triangle { a: 0, b: 11, c: 5 },
        Triangle { a: 0, b: 5, c: 1 },
        Triangle { a: 0, b: 1, c: 7 },
        Triangle { a: 0, b: 7, c: 10 },
        Triangle { a: 0, b: 10, c: 11 },
        Triangle { a: 1, b: 5, c: 9 },
        Triangle { a: 5, b: 11, c: 4 },
        Triangle { a: 11, b: 10, c: 2 },
        Triangle { a: 10, b: 7, c: 6 },
        Triangle { a: 7, b: 1, c: 8 },
        Triangle { a: 3, b: 9, c: 4 },
        Triangle { a: 3, b: 4, c: 2 },
        Triangle { a: 3, b: 2, c: 6 },
        Triangle { a: 3, b: 6, c: 8 },
        Triangle { a: 3, b: 8, c: 9 },
        Triangle { a: 4, b: 9, c: 5 },
        Triangle { a: 2, b: 4, c: 11 },
        Triangle { a: 6, b: 2, c: 10 },
        Triangle { a: 8, b: 6, c: 7 },
        Triangle { a: 9, b: 8, c: 1 },
    ]
}

/// The indices of `t` all point into a vertex list of length `n`.
pub open spec fn tri_in_bounds(t: Triangle, n: int) -> bool {
    t.a < n && t.b < n && t.c < n
}

/// Every triangle of `ts` points into a vertex list of length `n`.
pub open spec fn tris_in_bounds(ts: Seq<Triangle>, n: int) -> bool {
    forall|i: int| 0 <= i < ts.len() ==> tri_in_bounds(ts[i], n)
}

/// Every vertex of `vs` lies within the unit box.
pub open spec fn verts_unit_box(vs: Seq<Vertex>) -> bool {
    forall|i: int| 0 <= i < vs.len() ==> vertex_unit_box(vs[i])
}

/// The six vertices one subdivision emits for triangle `t`: its three corners
/// followed by the three normalized edge midpoints.
pub open spec fn subdiv_block(vs: Seq<Vertex>, t: Triangle) -> Seq<Vertex> {
    let v0 = vs[t.a as int];
    let v1 = vs[t.b as int];
    let v2 = vs[t.c as int];
    seq![
        v0,
        v1,
        v2,
        spec_normalize(spec_midpoint(v0, v1)),
        spec_normalize(spec_midpoint(v1, v2)),
        spec_normalize(spec_midpoint(v2, v0)),
    ]
}

/// All vertices one subdivision pass emits: the block of each input triangle,
/// in triangle order.
pub open spec fn subdivided_vertices(vs: Seq<Vertex>, ts: Seq<Triangle>) -> Seq<Vertex> {
    Seq::new(ts.len() * 6, |i: int| subdiv_block(vs, ts[i / 6])[i % 6])
}

/// Triangle `k` of a subdivision pass: block `k / 4` contributes three corner
/// triangles and one center triangle over its six block vertices.
pub open spec fn subdiv_tri(k: int) -> Triangle {
    let base = 6 * (k / 4);
    if k % 4 == 0 {
        Triangle { a: base as usize, b: (base + 3) as usize, c: (base + 5) as usize }
    } else if k % 4 == 1 {
        Triangle { a: (base + 3) as usize, b: (base + 1) as usize, c: (base + 4) as usize }
    } else if k % 4 == 2 {
        Triangle { a: (base + 4) as usize, b: (base + 2) as usize, c: (base + 5) as usize }
    } else {
        Triangle { a: (base + 3) as usize, b: (base + 4) as usize, c: (base + 5) as usize }
    }
}

/// All triangles one subdivision pass emits for `n` input triangles.
pub open spec fn subdivided_triangles(n: nat) -> Seq<Triangle> {
    Seq::new(4 * n, |k: int| subdiv_tri(k))
}

/// Division and remainder of `w * j + r` by `w`.
proof fn lemma_divmod(w: int, j: int, r: int)
    requires
        0 < w,
        0 <= j,
        0 <= r < w,
    ensures
        (w * j + r) / w == j,
        (w * j + r) % w == r,
{
    assert(w * j + r == j * w + r) by (nonlinear_arith);
    vstd::arithmetic::div_mod::lemma_fundamental_div_mod_converse(w * j + r, w, j, r);
}

/// Split every triangle of the mesh into four: the three corner triangles and
/// the center triangle over the normalized edge midpoints. Midpoint vertices
/// are recomputed per triangle and never shared across triangles, on purpose:
/// the output feeds a flat, index-free vertex buffer.
pub fn subdivide_icosphere(vert: Vec<Vertex>, tri: Vec<Triangle>) -> (res: (
    Vec<Vertex>,
    Vec<Triangle>,
))
    requires
        tris_in_bounds(tri@, vert@.len() as int),
        verts_unit_box(vert@),
        tri@.len() * 6 <= usize::MAX,
    ensures
        res.0@ == subdivided_vertices(vert@, tri@),
        res.1@ == subdivided_triangles(tri@.len()),
        res.0@.len() == tri@.len() * 6,
        res.1@.len() == tri@.len() * 4,
        verts_unit_box(res.0@),
        tris_in_bounds(res.1@, res.0@.len() as int),
{
    let n = tri.len();
    let mut next_vert: Vec<Vertex> = Vec::new();
    let mut next_tri: Vec<Triangle> = Vec::new();
    let mut j: usize = 0;
    while j < n
        invariant
            n == tri@.len(),
            tris_in_bounds(tri@, vert@.len() as int),
            verts_unit_box(vert@),
            n * 6 <= usize::MAX,
            j <= n,
            next_vert@.len() == 6 * j,
            next_tri@.len() == 4 * j,
            forall|i: int|
                0 <= i < next_vert@.len() ==> next_vert@[i] == subdivided_vertices(
                    vert@,
                    tri@,
                )[i],
            forall|k: int| 0 <= k < next_tri@.len() ==> next_tri@[k] == subdiv_tri(k),
            verts_unit_box(next_vert@),
            tris_in_bounds(next_tri@, 6 * j as int),
        decreases n - j,
    {
        let t = tri[j];
        assert(tri_in_bounds(tri@[j as int], vert@.len() as int));
        let v0 = vert[t.a];
        let v1 = vert[t.b];
        let v2 = vert[t.c];
        proof {
            assert(vertex_unit_box(v0) && vertex_unit_box(v1) && vertex_unit_box(v2));
        }
        let m01 = normalize(midpoint(v0, v1));
        let m12 = normalize(midpoint(v1, v2));
        let m20 = normalize(midpoint(v2, v0));
        let base = next_vert.len();
        next_vert.push(v0);
        next_vert.push(v1);
        next_vert.push(v2);
        next_vert.push(m01);
        next_vert.push(m12);
        next_vert.push(m20);
        next_tri.push(Triangle { a: base, b: base + 3, c: base + 5 });
        next_tri.push(Triangle { a: base + 3, b: base + 1, c: base + 4 });
        next_tri.push(Triangle { a: base + 4, b: base + 2, c: base + 5 });
        next_tri.push(Triangle { a: base + 3, b: base + 4, c: base + 5 });
        proof {
            let sv = subdivided_vertices(vert@, tri@);
            lemma_divmod(6, j as int, 0);
            lemma_divmod(6, j as int, 1);
            lemma_divmod(6, j as int, 2);
            lemma_divmod(6, j as int, 3);
            lemma_divmod(6, j as int, 4);
            lemma_divmod(6, j as int, 5);
            assert(sv[6 * j + 0] == subdiv_block(vert@, tri@[j as int])[0]);
            assert(sv[6 * j + 1] == subdiv_block(vert@, tri@[j as int])[1]);
            assert(sv[6 * j + 2] == subdiv_block(vert@, tri@[j as int])[2]);
            assert(sv[6 * j + 3] == subdiv_block(vert@, tri@[j as int])[3]);
            assert(sv[6 * j + 4] == subdiv_block(vert@, tri@[j as int])[4]);
            assert(sv[6 * j + 5] == subdiv_block(vert@, tri@[j as int])[5]);
            lemma_divmod(4, j as int, 0);
            lemma_divmod(4, j as int, 1);
            lemma_divmod(4, j as int, 2);
            lemma_divmod(4, j as int, 3);
            assert(subdiv_tri(4 * j + 0).a == 6 * j + 0);
            assert(subdiv_tri(4 * j + 1).a == 6 * j + 3);
            assert(subdiv_tri(4 * j + 2).a == 6 * j + 4);
            assert(subdiv_tri(4 * j + 3).a == 6 * j + 3);
        }
        j = j + 1;
    }
    proof {
        assert(next_vert@ =~= subdivided_vertices(vert@, tri@));
        assert(next_tri@ =~= subdivided_triangles(tri@.len()));
    }
    (next_vert, next_tri)
}

/// The `n`-th power of four.
pub open spec fn pow4(n: nat) -> nat
    decreases n,
{
    if n == 0 {
        1
    } else {
        4 * pow4((n - 1) as nat)
    }
}

/// Powers of four are positive and monotone.
pub proof fn lemma_pow4_mono(a: nat, b: nat)
    requires
        a <= b,
    ensures
        1 <= pow4(a) <= pow4(b),
    decreases b,
{
    if a == b {
        if a > 0 {
            lemma_pow4_mono((a - 1) as nat, (a - 1) as nat);
        }
    } else {
        lemma_pow4_mono(a, (b - 1) as nat);
    }
}

/// The vertex and triangle lists after `n` subdivision passes over the base
/// icosahedron.
pub open spec fn mesh_after(n: nat) -> (Seq<Vertex>, Seq<Triangle>)
    decreases n,
{
    if n == 0 {
        (base_vertices(), base_triangles())
    } else {
        let prev = mesh_after((n - 1) as nat);
        (subdivided_vertices(prev.0, prev.1), subdivided_triangles(prev.1.len()))
    }
}

/// Index (into a vertex list) of corner `k` of triangle `t`.
pub open spec fn tri_corner(t: Triangle, k: int) -> int {
    if k == 0 {
        t.a as int
    } else if k == 1 {
        t.b as int
    } else {
        t.c as int
    }
}

/// Coordinate `c` of vertex `v`.
pub open spec fn vertex_comp(v: Vertex, c: int) -> i64 {
    if c == 0 {
        v.x
    } else if c == 1 {
        v.y
    } else {
        v.z
    }
}

/// The flat coordinate buffer of a mesh: for each triangle, in order, the
/// three coordinates of each of its three corner vertices.
pub open spec fn flat_buffer(vs: Seq<Vertex>, ts: Seq<Triangle>) -> Seq<i64> {
    Seq::new(ts.len() * 9, |i: int| vertex_comp(vs[tri_corner(ts[i / 9], (i % 9) / 3)], i % 3))
}

/// Division and remainder facts for one buffer slot: slot `9 * j + r` lies in
/// triangle `j` at in-triangle offset `r`.
proof fn lemma_flat_divmod(j: int, r: int)
    requires
        0 <= j,
        0 <= r < 9,
    ensures
        (9 * j + r) / 9 == j,
        (9 * j + r) % 9 == r,
        (9 * j + r) % 3 == r % 3,
{
    lemma_divmod(9, j, r);
    assert(9 * j + r == 3 * (3 * j + r / 3) + (r % 3)) by (nonlinear_arith)
        requires
            0 <= r < 9,
    ;
    vstd::arithmetic::div_mod::lemma_fundamental_div_mod_converse(
        9 * j + r,
        3,
        3 * j + r / 3,
        r % 3,
    );
}

/// Generate the icosphere mesh buffer for a subdivision depth.
///
/// The result is the flat coordinate buffer of the base icosahedron subdivided
/// `iterations` times: `20 * 4^iterations` triangles, nine fixed-point
/// coordinates each. The bound in `requires` only keeps the buffer length
/// representable; callers choose a depth whose buffer they can afford.
pub fn get_icosphere(iterations: usize) -> (buffer: Vec<i64>)
    requires
        180 * pow4(iterations as nat) <= usize::MAX,
    ensures
        buffer@ == flat_buffer(mesh_after(iterations as nat).0, mesh_after(iterations as nat).1),
        buffer@.len() == 9 * 20 * pow4(iterations as nat),
        mesh_after(iterations as nat).1.len() == 20 * pow4(iterations as nat),
{
    let mut vertices: Vec<Vertex> = Vec::new();
    vertices.push(Vertex { x: -ICO_A, y: ICO_B, z: 0 });
    vertices.push(Vertex { x: ICO_A, y: ICO_B, z: 0 });
    vertices.push(Vertex { x: -ICO_A, y: -ICO_B, z: 0 });
    vertices.push(Vertex { x: ICO_A, y: -ICO_B, z: 0 });
    vertices.push(Vertex { x: 0, y: -ICO_A, z: ICO_B });
    vertices.push(Vertex { x: 0, y: ICO_A, z: ICO_B });
    vertices.push(Vertex { x: 0, y: -ICO_A, z: -ICO_B });
    vertices.push(Vertex { x: 0, y: ICO_A, z: -ICO_B });
    vertices.push(Vertex { x: ICO_B, y: 0, z: -ICO_A });
    vertices.push(Vertex { x: ICO_B, y: 0, z: ICO_A });
    vertices.push(Vertex { x: -ICO_B, y: 0, z: -ICO_A });
    vertices.push(Vertex { x: -ICO_B, y: 0, z: ICO_A });
    let mut triangles: Vec<Triangle> = Vec::new();
    triangles.push(Triangle { a: 0, b: 11, c: 5 });
    triangles.push(Triangle { a: 0, b: 5, c: 1 });
    triangles.push(Triangle { a: 0, b: 1, c: 7 });
    triangles.push(Triangle { a: 0, b: 7, c: 10 });
    triangles.push(Triangle { a: 0, b: 10, c: 11 });
    triangles.push(Triangle { a: 1, b: 5, c: 9 });
    triangles.push(Triangle { a: 5, b: 11, c: 4 });
    triangles.push(Triangle { a: 11, b: 10, c: 2 });
    triangles.push(Triangle { a: 10, b: 7, c: 6 });
    triangles.push(Triangle { a: 7, b: 1, c: 8 });
    triangles.push(Triangle { a: 3, b: 9, c: 4 });
    triangles.push(Triangle { a: 3, b: 4, c: 2 });
    triangles.push(Triangle { a: 3, b: 2, c: 6 });
    triangles.push(Triangle { a: 3, b: 6, c: 8 });
    triangles.push(Triangle { a: 3, b: 8, c: 9 });
    triangles.push(Triangle { a: 4, b: 9, c: 5 });
    triangles.push(Triangle { a: 2, b: 4, c: 11 });
    triangles.push(Triangle { a: 6, b: 2, c: 10 });
    triangles.push(Triangle { a: 8, b: 6, c: 7 });
    triangles.push(Triangle { a: 9, b: 8, c: 1 });
    proof {
        assert(vertices@ =~= base_vertices());
        assert(triangles@ =~= base_triangles());
        assert(tris_in_bounds(triangles@, vertices@.len() as int));
        assert(verts_unit_box(vertices@));
    }
    let mut it: usize = 0;
    while it < iterations
        invariant
            it <= iterations,
            180 * pow4(iterations as nat) <= usize::MAX,
            vertices@ == mesh_after(it as nat).0,
            triangles@ == mesh_after(it as nat).1,
            triangles@.len() == 20 * pow4(it as nat),
            tris_in_bounds(triangles@, vertices@.len() as int),
            verts_unit_box(vertices@),
        decreases iterations - it,
    {
        proof {
            lemma_pow4_mono(it as nat, iterations as nat);
            assert(triangles@.len() * 6 <= 180 * pow4(iterations as nat));
        }
        let step = subdivide_icosphere(vertices, triangles);
        vertices = step.0;
        triangles = step.1;
        it = it + 1;
        proof {
            assert(mesh_after(it as nat).0 == subdivided_vertices(
                mesh_after((it - 1) as nat).0,
                mesh_after((it - 1) as nat).1,
            ));
            assert(pow4(it as nat) == 4 * pow4((it - 1) as nat));
        }
    }
    proof {
        lemma_pow4_mono(iterations as nat, iterations as nat);
        assert(triangles@.len() * 9 <= 180 * pow4(iterations as nat));
    }
    let count = triangles.len();
    let mut buffer: Vec<i64> = Vec::new();
    let mut j: usize = 0;
    while j < count
        invariant
            count == triangles@.len(),
            count * 9 <= usize::MAX,
            tris_in_bounds(triangles@, vertices@.len() as int),
            j <= count,
            buffer@.len() == 9 * j,
            forall|i: int|
                0 <= i < buffer@.len() ==> buffer@[i] == flat_buffer(vertices@, triangles@)[i],
        decreases count - j,
    {
        let t = triangles[j];
        assert(tri_in_bounds(triangles@[j as int], vertices@.len() as int));
        let v0 = vertices[t.a];
        let v1 = vertices[t.b];
        let v2 = vertices[t.c];
        buffer.push(v0.x);
        buffer.push(v0.y);
        buffer.push(v0.z);
        buffer.push(v1.x);
        buffer.push(v1.y);
        buffer.push(v1.z);
        buffer.push(v2.x);
        buffer.push(v2.y);
        buffer.push(v2.z);
        proof {
            let fb = flat_buffer(vertices@, triangles@);
            lemma_flat_divmod(j as int, 0);
            lemma_flat_divmod(j as int, 1);
            lemma_flat_divmod(j as int, 2);
            lemma_flat_divmod(j as int, 3);
            lemma_flat_divmod(j as int, 4);
            lemma_flat_divmod(j as int, 5);
            lemma_flat_divmod(j as int, 6);
            lemma_flat_divmod(j as int, 7);
            lemma_flat_divmod(j as int, 8);
            assert(fb[9 * j + 0] == v0.x);
            assert(fb[9 * j + 1] == v0.y);
            assert(fb[9 * j + 2] == v0.z);
            assert(fb[9 * j + 3] == v1.x);
            assert(fb[9 * j + 4] == v1.y);
            assert(fb[9 * j + 5] == v1.z);
            assert(fb[9 * j + 6] == v2.x);
            assert(fb[9 * j + 7] == v2.y);
            assert(fb[9 * j + 8] == v2.z);
        }
        j = j + 1;
    }
    proof {
        assert(buffer@ =~= flat_buffer(vertices@, triangles@));
    }
    buffer
}

} // verus!
