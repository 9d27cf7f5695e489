use voxel_renderer::mesh::{
    cube_face, generate_chunk_mesh, generate_cube_mesh, offset_face, to_1d_array, Chunk, CubeFace,
    HalfVec2, HalfVec3, Vertex, HEIGHT, TOTAL_BLOCKS_IN_CHUNK, VERTICES_PER_CUBE, WIDTH,
};

fn v(p: (i32, i32, i32), t: (i32, i32), n: (i32, i32, i32)) -> Vertex {
    Vertex {
        pos: HalfVec3 { x: p.0, y: p.1, z: p.2 },
        color: HalfVec3 { x: 0, y: 0, z: 0 },
        tex_coord: HalfVec2 { x: t.0, y: t.1 },
        normals: HalfVec3 { x: n.0, y: n.1, z: n.2 },
    }
}

fn moved(vertex: Vertex, x: i32, y: i32, z: i32) -> Vertex {
    Vertex {
        pos: HalfVec3 { x: vertex.pos.x + x, y: vertex.pos.y + y, z: vertex.pos.z + z },
        ..vertex
    }
}

#[test]
fn front_face_matches_the_unit_cube() {
    // (-0.5, -0.5, 0.5), tex (0, 0), normal (0, 0, 1) in half units.
    let face = cube_face(CubeFace::Front);
    assert_eq!(face[0], v((-1, -1, 1), (0, 0), (0, 0, 2)));
    assert_eq!(face[1], v((-1, 1, 1), (0, 2), (0, 0, 2)));
    assert_eq!(face[4], v((1, -1, 1), (2, 0), (0, 0, 2)));
    assert_eq!(face[5], face[0]);
}

#[test]
fn every_face_lies_on_its_plane() {
    for face in [
        CubeFace::Back,
        CubeFace::Front,
        CubeFace::Left,
        CubeFace::Right,
        CubeFace::Bottom,
        CubeFace::Top,
    ] {
        let vertices = cube_face(face);
        let n = vertices[0].normals;
        for vertex in vertices.iter() {
            assert_eq!(vertex.normals, n);
            let dot = vertex.pos.x * n.x + vertex.pos.y * n.y + vertex.pos.z * n.z;
            assert_eq!(dot, 2);
        }
    }
}

#[test]
fn offset_face_moves_positions_only() {
    let face = cube_face(CubeFace::Top);
    let shifted = offset_face(&face, HalfVec3 { x: 4, y: -2, z: 6 });
    for k in 0..6 {
        assert_eq!(shifted[k], moved(face[k], 4, -2, 6));
    }
    assert_eq!(offset_face(&face, HalfVec3 { x: 0, y: 0, z: 0 }), face);
}

#[test]
fn cube_mesh_has_faces_in_order() {
    let mesh = generate_cube_mesh();
    assert_eq!(mesh.len(), VERTICES_PER_CUBE);
    let order = [
        CubeFace::Front,
        CubeFace::Back,
        CubeFace::Right,
        CubeFace::Left,
        CubeFace::Top,
        CubeFace::Bottom,
    ];
    for (f, face) in order.iter().enumerate() {
        let vertices = cube_face(*face);
        for k in 0..6 {
            assert_eq!(mesh[f * 6 + k], vertices[k]);
        }
    }
}

#[test]
fn chunk_mesh_places_each_block_by_its_index() {
    let chunk = Chunk { occupancy: [true; 100] };
    let mesh = generate_chunk_mesh(&chunk);
    assert_eq!(mesh.len(), TOTAL_BLOCKS_IN_CHUNK as usize * VERTICES_PER_CUBE);
    assert_eq!(mesh.len(), 36000);
    let cube = generate_cube_mesh();
    for &(x, y, z) in &[(0u32, 0u32, 0u32), (1, 0, 0), (0, 1, 0), (0, 0, 1), (3, 7, 9), (9, 9, 9)] {
        let b = to_1d_array(x, y, z) as usize;
        for j in 0..36 {
            assert_eq!(
                mesh[b * 36 + j],
                moved(cube[j], 2 * x as i32, 2 * y as i32, 2 * z as i32)
            );
        }
    }
    assert_eq!(&mesh[..36], &cube[..]);
}

#[test]
fn block_index_walks_x_then_y_then_z() {
    assert_eq!(to_1d_array(0, 0, 0), 0);
    assert_eq!(to_1d_array(1, 2, 3), 321);
    assert_eq!(to_1d_array(WIDTH - 1, HEIGHT - 1, WIDTH - 1), TOTAL_BLOCKS_IN_CHUNK - 1);
}

#[test]
fn block_indices_cover_the_chunk_once() {
    let mut seen = vec![false; TOTAL_BLOCKS_IN_CHUNK as usize];
    for z in 0..WIDTH {
        for y in 0..HEIGHT {
            for x in 0..WIDTH {
                let b = to_1d_array(x, y, z) as usize;
                assert!(!seen[b]);
                seen[b] = true;
            }
        }
    }
    assert!(seen.iter().all(|s| *s));
}
