use cubeview::mesh::{cube_indices, cube_vertices, Vertex, CORNER_COUNT, INDEX_COUNT};

#[test]
fn cube_spans_half_a_unit_around_the_origin() {
    let corners = cube_vertices(-0.5f32, 0.5);
    assert_eq!(
        corners,
        [
            Vertex { position: [-0.5, 0.5, -0.5] },
            Vertex { position: [0.5, 0.5, -0.5] },
            Vertex { position: [-0.5, -0.5, -0.5] },
            Vertex { position: [0.5, -0.5, -0.5] },
            Vertex { position: [-0.5, 0.5, 0.5] },
            Vertex { position: [0.5, 0.5, 0.5] },
            Vertex { position: [-0.5, -0.5, 0.5] },
            Vertex { position: [0.5, -0.5, 0.5] },
        ]
    );
}

#[test]
fn cube_has_eight_different_corners() {
    let corners = cube_vertices(0u8, 1);
    assert_eq!(corners.len(), CORNER_COUNT);
    for first in 0..corners.len() {
        for second in 0..first {
            assert_ne!(corners[first], corners[second]);
        }
    }
}

#[test]
fn cube_is_centred() {
    let corners = cube_vertices(-1i32, 1);
    for axis in 0..3 {
        let sum: i32 = corners.iter().map(|corner| corner.position[axis]).sum();
        assert_eq!(sum, 0);
    }
}

#[test]
fn triangle_list_is_the_expected_one() {
    let expected: [u16; 36] = [
        0, 1, 2, 2, 3, 1, 4, 5, 6, 6, 7, 5, 0, 1, 4, 4, 5, 1, 2, 3, 6, 6, 7, 3, 0, 4, 2, 2, 6, 4,
        5, 1, 7, 7, 3, 1,
    ];
    assert_eq!(cube_indices(), expected);
    assert_eq!(cube_indices().len(), INDEX_COUNT);
}

#[test]
fn triangle_list_names_only_corners() {
    for index in cube_indices() {
        assert!(usize::from(index) < CORNER_COUNT);
    }
}

#[test]
fn each_pair_of_triangles_lies_in_one_face() {
    let corners = cube_vertices(-1i32, 1);
    let indices = cube_indices();
    // The faces in the order of the list: z low, z high, y high, y low, x low, x high.
    let faces = [(2, -1), (2, 1), (1, 1), (1, -1), (0, -1), (0, 1)];
    for (face, (axis, side)) in faces.iter().enumerate() {
        let mut seen = Vec::new();
        for k in 6 * face..6 * face + 6 {
            let corner = usize::from(indices[k]);
            assert_eq!(corners[corner].position[*axis], *side);
            if !seen.contains(&corner) {
                seen.push(corner);
            }
        }
        assert_eq!(seen.len(), 4);
    }
}

#[test]
fn triangles_have_three_different_corners() {
    let indices = cube_indices();
    for triangle in 0..12 {
        let (a, b, c) = (indices[3 * triangle], indices[3 * triangle + 1], indices[3 * triangle + 2]);
        assert!(a != b && a != c && b != c);
    }
}
