//! Mesh generation and camera math, checked on concrete values through the
//! fixed-point scalars of the library.

use globe_vis::fixed::SCALE;
use globe_vis::icosphere::{get_icosphere, midpoint, normalize, subdivide_icosphere, Triangle,
    Vertex};
use globe_vis::matrix::Mat4;
use globe_vis::mouse::{normalize_scroll, zoom_from_scroll, ScrollDelta};

fn to_fixed(f: f32) -> i64 {
    (f * SCALE as f32) as i64
}

fn from_fixed(v: i64) -> f32 {
    v as f32 / SCALE as f32
}

fn vertex(x: f32, y: f32, z: f32) -> Vertex {
    Vertex { x: to_fixed(x), y: to_fixed(y), z: to_fixed(z) }
}

#[test]
fn test_normalize() {
    let normalized_v = normalize(vertex(3.0, 0.0, 4.0));
    let got = [normalized_v.x, normalized_v.y, normalized_v.z];
    let expected_v: [f32; 3] = [0.6, 0.0, 0.8];

    for i in 0..3 {
        assert!((from_fixed(got[i]) - expected_v[i]).abs() < 1e-6);
    }
}

#[test]
fn test_midpoint() {
    let a = vertex(1.0, 2.0, 3.0);
    let b = vertex(3.0, 6.0, 9.0);
    let midpoint_v = midpoint(a, b);
    let got = [midpoint_v.x, midpoint_v.y, midpoint_v.z];
    let expected_v: [f32; 3] = [2.0, 4.0, 6.0];

    for i in 0..3 {
        assert_eq!(from_fixed(got[i]), expected_v[i]);
    }
}

#[test]
fn test_subdivide_icosphere() {
    let vertices = vec![vertex(0.0, 0.0, 0.0), vertex(1.0, 0.0, 0.0), vertex(0.0, 1.0, 0.0)];
    let triangles = vec![Triangle { a: 0, b: 1, c: 2 }];
    let (subdivided_vertices, subdivided_triangles) = subdivide_icosphere(vertices, triangles);

    assert_eq!(subdivided_vertices.len(), 6);
    assert_eq!(subdivided_triangles.len(), 4);
}

#[test]
fn test_get_icosphere() {
    let iterations = 1;
    let icosphere = get_icosphere(iterations);

    assert_eq!(icosphere.len(), 3 * 3 * 20 * (4usize.pow(iterations as u32)));
}

#[test]
fn test_icosphere_vertex_normalized() {
    let iterations = 2;
    let icosphere = get_icosphere(iterations);

    for i in (0..icosphere.len()).step_by(3) {
        let x = from_fixed(icosphere[i]);
        let y = from_fixed(icosphere[i + 1]);
        let z = from_fixed(icosphere[i + 2]);
        let len = (x * x + y * y + z * z).sqrt();
        assert!((len - 1.0).abs() < 1e-6);
    }
}

#[test]
fn test_icosphere_triangle_edge_length_variation() {
    fn edge_length(a: [f32; 3], b: [f32; 3]) -> f32 {
        ((a[0] - b[0]).powi(2) + (a[1] - b[1]).powi(2) + (a[2] - b[2]).powi(2)).sqrt()
    }

    let iterations = 2;
    let icosphere: Vec<f32> = get_icosphere(iterations).into_iter().map(from_fixed).collect();
    let mut edge_lengths: Vec<f32> = Vec::new();

    for i in (0..icosphere.len()).step_by(9) {
        let a = [icosphere[i], icosphere[i + 1], icosphere[i + 2]];
        let b = [icosphere[i + 3], icosphere[i + 4], icosphere[i + 5]];
        let c = [icosphere[i + 6], icosphere[i + 7], icosphere[i + 8]];

        let ab_length = edge_length(a, b);
        let bc_length = edge_length(b, c);
        let ca_length = edge_length(c, a);

        let avg_edge_length = (ab_length + bc_length + ca_length) / 3.0;
        edge_lengths.push(avg_edge_length);
    }

    let max_difference = edge_lengths.iter().cloned().fold(f32::MIN, f32::max)
        - edge_lengths.iter().cloned().fold(f32::MAX, f32::min);

    assert!(
        max_difference < 0.05,
        "The maximum difference between average edge lengths of triangles is {}, which exceeds the allowed threshold.",
        max_difference
    );
}

#[test]
fn test_zoom_from_scroll() {
    let mat = Mat4::identity();
    let delta = 30.0;

    let zoomed_mat = zoom_from_scroll(&mat, to_fixed(delta));
    let expected_zoom = 1.0 + (delta * 0.03) as f32;

    // the expected result is the uniform-scale matrix by that factor
    for col in 0..4 {
        for row in 0..4 {
            let got = from_fixed(zoomed_mat.m[col * 4 + row]);
            let expected = if col == row {
                if col == 3 {
                    1.0
                } else {
                    expected_zoom
                }
            } else {
                0.0
            };
            assert!(
                (got - expected).abs() < 1e-6,
                "matrices not equal at column {}, row {}: {} != {}",
                col,
                row,
                got,
                expected
            );
        }
    }
}

#[test]
fn base_icosahedron_has_twenty_faces() {
    let icosphere = get_icosphere(0);
    assert_eq!(icosphere.len(), 180);
    assert_eq!(icosphere.len() / 9, 20);
}

#[test]
fn normalize_zero_vector_stays_zero() {
    let zero = normalize(Vertex { x: 0, y: 0, z: 0 });
    assert_eq!(zero, Vertex { x: 0, y: 0, z: 0 });
}

#[test]
fn subdivision_emits_expected_topology() {
    let vertices = vec![vertex(1.0, 0.0, 0.0), vertex(0.0, 1.0, 0.0), vertex(0.0, 0.0, 1.0)];
    let triangles = vec![Triangle { a: 0, b: 1, c: 2 }];
    let (verts, tris) = subdivide_icosphere(vertices.clone(), triangles);

    // corners come through unchanged, in order
    assert_eq!(verts[0], vertices[0]);
    assert_eq!(verts[1], vertices[1]);
    assert_eq!(verts[2], vertices[2]);
    // three corner triangles and the center triangle, over the six block vertices
    assert_eq!(tris[0], Triangle { a: 0, b: 3, c: 5 });
    assert_eq!(tris[1], Triangle { a: 3, b: 1, c: 4 });
    assert_eq!(tris[2], Triangle { a: 4, b: 2, c: 5 });
    assert_eq!(tris[3], Triangle { a: 3, b: 4, c: 5 });
    // midpoints were pushed back onto the unit sphere
    for v in verts.iter().skip(3) {
        let x = from_fixed(v.x);
        let y = from_fixed(v.y);
        let z = from_fixed(v.z);
        assert!(((x * x + y * y + z * z).sqrt() - 1.0).abs() < 1e-6);
    }
}

#[test]
fn matrix_product_of_uniform_scales() {
    let two = Mat4::uniform_scale(2 * SCALE);
    let three = Mat4::uniform_scale(3 * SCALE);
    let product = two.mul_mat4(&three);
    for col in 0..4 {
        for row in 0..4 {
            let expected = if col == row {
                if col == 3 {
                    SCALE
                } else {
                    6 * SCALE
                }
            } else {
                0
            };
            assert_eq!(product.m[col * 4 + row], expected);
        }
    }
}

#[test]
fn scroll_normalization_of_both_encodings() {
    // a discrete line is worth the line height
    assert_eq!(normalize_scroll(ScrollDelta::Lines(to_fixed(2.0)), SCALE), to_fixed(80.0));
    // a pixel delta is divided by the display density scale
    assert_eq!(
        normalize_scroll(ScrollDelta::Pixels(to_fixed(30.0)), 2 * SCALE),
        to_fixed(15.0)
    );
}

#[test]
fn base_mesh_first_triangle_is_exact() {
    // the first face of the base icosahedron, flattened: vertices 0, 11, 5
    let a = globe_vis::icosphere::ICO_A;
    let b = globe_vis::icosphere::ICO_B;
    let buffer = get_icosphere(0);
    assert_eq!(&buffer[0..9], &[-a, b, 0, -b, 0, a, 0, a, b]);
}
