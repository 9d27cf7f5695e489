//! Cube and chunk meshes.
//!
//! Every coordinate of the cube geometry is a multiple of one half, so the
//! library counts all vertex components in half units: a stored component
//! `c` stands for the value `c / 2`.  The application turns them into
//! floating-point vertices when it uploads a mesh.

use vstd::prelude::*;
use vstd::arithmetic::div_mod::lemma_fundamental_div_mod_converse;

verus! {

/// Blocks along the x and z axes of a chunk.
pub const WIDTH: u32 = 10;

/// Blocks along the y axis of a chunk.
pub const HEIGHT: u32 = 10;

/// Number of blocks in one chunk.
pub const TOTAL_BLOCKS_IN_CHUNK: u32 = WIDTH * WIDTH * HEIGHT;

/// Vertices of one cube face (two triangles).
pub const VERTICES_PER_FACE: usize = 6;

/// Faces of one cube.
pub const FACES_PER_CUBE: usize = 6;

/// Vertices of one cube.
pub const VERTICES_PER_CUBE: usize = 36;

/// Three components in half units.
#[derive(Clone, Copy, Debug, PartialEq, Eq, Structural)]
pub struct HalfVec3 {
    pub x: i32,
    pub y: i32,
    pub z: i32,
}

/// Two components in half units.
#[derive(Clone, Copy, Debug, PartialEq, Eq, Structural)]
pub struct HalfVec2 {
    pub x: i32,
    pub y: i32,
}

/// A mesh vertex; every component is in half units.
#[derive(Clone, Copy, Debug, PartialEq, Eq, Structural)]
pub struct Vertex {
    pub pos: HalfVec3,
    pub color: HalfVec3,
    pub tex_coord: HalfVec2,
    pub normals: HalfVec3,
}

/// The six faces of a cube.
#[derive(Clone, Copy, Debug, PartialEq, Eq, Structural)]
pub enum CubeFace {
    Back,
    Front,
    Left,
    Right,
    Bottom,
    Top,
}

/// The occupancy grid of one chunk.
pub struct Chunk {
    pub occupancy: [bool; 100],
}

pub open spec fn corner(
    px: int,
    py: int,
    pz: int,
    u: int,
    v: int,
    nx: int,
    ny: int,
    nz: int,
) -> Vertex {
    Vertex {
        pos: HalfVec3 { x: px as i32, y: py as i32, z: pz as i32 },
        color: HalfVec3 { x: 0, y: 0, z: 0 },
        tex_coord: HalfVec2 { x: u as i32, y: v as i32 },
        normals: HalfVec3 { x: nx as i32, y: ny as i32, z: nz as i32 },
    }
}

/// The six vertices (two triangles) of each face of the unit cube centred on
/// the origin, in half units.
pub open spec fn face_vertices(face: CubeFace) -> Seq<Vertex> {
    match face {
        CubeFace::Back => seq![
            corner(-1, -1, -1, 0, 0, 0, 0, -2),
            corner(1, -1, -1, 2, 0, 0, 0, -2),
            corner(1, 1, -1, 2, 2, 0, 0, -2),
            corner(1, 1, -1, 2, 2, 0, 0, -2),
            corner(-1, 1, -1, 0, 2, 0, 0, -2),
            corner(-1, -1, -1, 0, 0, 0, 0, -2),
        ],
        CubeFace::Front => seq![
            corner(-1, -1, 1, 0, 0, 0, 0, 2),
            corner(-1, 1, 1, 0, 2, 0, 0, 2),
            corner(1, 1, 1, 2, 2, 0, 0, 2),
            corner(1, 1, 1, 2, 2, 0, 0, 2),
            corner(1, -1, 1, 2, 0, 0, 0, 2),
            corner(-1, -1, 1, 0, 0, 0, 0, 2),
        ],
        CubeFace::Left => seq![
            corner(-1, 1, 1, 2, 0, -2, 0, 0),
            corner(-1, -1, 1, 0, 0, -2, 0, 0),
            corner(-1, -1, -1, 0, 2, -2, 0, 0),
            corner(-1, -1, -1, 0, 2, -2, 0, 0),
            corner(-1, 1, -1, 2, 2, -2, 0, 0),
            corner(-1, 1, 1, 2, 0, -2, 0, 0),
        ],
        CubeFace::Right => seq![
            corner(1, 1, 1, 2, 0, 2, 0, 0),
            corner(1, 1, -1, 2, 2, 2, 0, 0),
            corner(1, -1, -1, 0, 2, 2, 0, 0),
            corner(1, -1, -1, 0, 2, 2, 0, 0),
            corner(1, -1, 1, 0, 0, 2, 0, 0),
            corner(1, 1, 1, 2, 0, 2, 0, 0),
        ],
        CubeFace::Bottom => seq![
            corner(-1, -1, -1, 0, 2, 0, -2, 0),
            corner(-1, -1, 1, 0, 0, 0, -2, 0),
            corner(1, -1, 1, 2, 0, 0, -2, 0),
            corner(1, -1, 1, 2, 0, 0, -2, 0),
            corner(1, -1, -1, 2, 2, 0, -2, 0),
            corner(-1, -1, -1, 0, 2, 0, -2, 0),
        ],
        CubeFace::Top => seq![
            corner(-1, 1, -1, 0, 2, 0, 2, 0),
            corner(1, 1, -1, 2, 2, 0, 2, 0),
            corner(1, 1, 1, 2, 0, 0, 2, 0),
            corner(1, 1, 1, 2, 0, 0, 2, 0),
            corner(-1, 1, 1, 0, 0, 0, 2, 0),
            corner(-1, 1, -1, 0, 2, 0, 2, 0),
        ],
    }
}

fn vertex(px: i32, py: i32, pz: i32, u: i32, v: i32, nx: i32, ny: i32, nz: i32) -> (r: Vertex)
    ensures
        r == corner(px as int, py as int, pz as int, u as int, v as int, nx as int, ny as int, nz as int),
{
    Vertex {
        pos: HalfVec3 { x: px, y: py, z: pz },
        color: HalfVec3 { x: 0, y: 0, z: 0 },
        tex_coord: HalfVec2 { x: u, y: v },
        normals: HalfVec3 { x: nx, y: ny, z: nz },
    }
}

/// The vertices of one face of the unit cube.
pub fn cube_face(face: CubeFace) -> (r: [Vertex; 6])
    ensures
        r@ == face_vertices(face),
{
    let r = match face {
        CubeFace::Back => [
            vertex(-1, -1, -1, 0, 0, 0, 0, -2),
            vertex(1, -1, -1, 2, 0, 0, 0, -2),
            vertex(1, 1, -1, 2, 2, 0, 0, -2),
            vertex(1, 1, -1, 2, 2, 0, 0, -2),
            vertex(-1, 1, -1, 0, 2, 0, 0, -2),
            vertex(-1, -1, -1, 0, 0, 0, 0, -2),
        ],
        CubeFace::Front => [
            vertex(-1, -1, 1, 0, 0, 0, 0, 2),
            vertex(-1, 1, 1, 0, 2, 0, 0, 2),
            vertex(1, 1, 1, 2, 2, 0, 0, 2),
            vertex(1, 1, 1, 2, 2, 0, 0, 2),
            vertex(1, -1, 1, 2, 0, 0, 0, 2),
            vertex(-1, -1, 1, 0, 0, 0, 0, 2),
        ],
        CubeFace::Left => [
            vertex(-1, 1, 1, 2, 0, -2, 0, 0),
            vertex(-1, -1, 1, 0, 0, -2, 0, 0),
            vertex(-1, -1, -1, 0, 2, -2, 0, 0),
            vertex(-1, -1, -1, 0, 2, -2, 0, 0),
            vertex(-1, 1, -1, 2, 2, -2, 0, 0),
            vertex(-1, 1, 1, 2, 0, -2, 0, 0),
        ],
        CubeFace::Right => [
            vertex(1, 1, 1, 2, 0, 2, 0, 0),
            vertex(1, 1, -1, 2, 2, 2, 0, 0),
            vertex(1, -1, -1, 0, 2, 2, 0, 0),
            vertex(1, -1, -1, 0, 2, 2, 0, 0),
            vertex(1, -1, 1, 0, 0, 2, 0, 0),
            vertex(1, 1, 1, 2, 0, 2, 0, 0),
        ],
        CubeFace::Bottom => [
            vertex(-1, -1, -1, 0, 2, 0, -2, 0),
            vertex(-1, -1, 1, 0, 0, 0, -2, 0),
            vertex(1, -1, 1, 2, 0, 0, -2, 0),
            vertex(1, -1, 1, 2, 0, 0, -2, 0),
            vertex(1, -1, -1, 2, 2, 0, -2, 0),
            vertex(-1, -1, -1, 0, 2, 0, -2, 0),
        ],
        CubeFace::Top => [
            vertex(-1, 1, -1, 0, 2, 0, 2, 0),
            vertex(1, 1, -1, 2, 2, 0, 2, 0),
            vertex(1, 1, 1, 2, 0, 0, 2, 0),
            vertex(1, 1, 1, 2, 0, 0, 2, 0),
            vertex(-1, 1, 1, 0, 0, 0, 2, 0),
            vertex(-1, 1, -1, 0, 2, 0, 2, 0),
        ],
    };
    assert(r@ =~= face_vertices(face));
    r
}

/// The order in which a cube's faces are laid out in a mesh.
pub open spec fn face_at(f: int) -> CubeFace {
    if f == 0 {
        CubeFace::Front
    } else if f == 1 {
        CubeFace::Back
    } else if f == 2 {
        CubeFace::Right
    } else if f == 3 {
        CubeFace::Left
    } else if f == 4 {
        CubeFace::Top
    } else {
        CubeFace::Bottom
    }
}

fn face_at_index(f: usize) -> (r: CubeFace)
    requires
        f < FACES_PER_CUBE,
    ensures
        r == face_at(f as int),
{
    if f == 0 {
        CubeFace::Front
    } else if f == 1 {
        CubeFace::Back
    } else if f == 2 {
        CubeFace::Right
    } else if f == 3 {
        CubeFace::Left
    } else if f == 4 {
        CubeFace::Top
    } else {
        CubeFace::Bottom
    }
}

pub open spec fn half3(x: int, y: int, z: int) -> HalfVec3 {
    HalfVec3 { x: x as i32, y: y as i32, z: z as i32 }
}

/// The vertex `v` moved by `offset`; only the position changes.
pub open spec fn offset_vertex(v: Vertex, offset: HalfVec3) -> Vertex {
    Vertex {
        pos: half3(v.pos.x + offset.x, v.pos.y + offset.y, v.pos.z + offset.z),
        ..v
    }
}

/// The sum of a position and an offset stays inside `i32`.
pub open spec fn offset_fits(pos: HalfVec3, offset: HalfVec3) -> bool {
    &&& i32::MIN <= pos.x + offset.x <= i32::MAX
    &&& i32::MIN <= pos.y + offset.y <= i32::MAX
    &&& i32::MIN <= pos.z + offset.z <= i32::MAX
}

/// An offset small enough to move any vertex of the unit cube.
pub open spec fn small_offset(offset: HalfVec3) -> bool {
    &&& -0x4000_0000 <= offset.x <= 0x4000_0000
    &&& -0x4000_0000 <= offset.y <= 0x4000_0000
    &&& -0x4000_0000 <= offset.z <= 0x4000_0000
}

/// The 36 vertices of the unit cube moved by `offset`, faces in mesh order.
pub open spec fn cube_at(offset: HalfVec3) -> Seq<Vertex> {
    Seq::new(
        VERTICES_PER_CUBE as nat,
        |j: int| offset_vertex(face_vertices(face_at(j / 6))[j % 6], offset),
    )
}

/// The position of block `(x, y, z)` in the block order of a chunk.
pub open spec fn block_index(x: int, y: int, z: int) -> int {
    z * WIDTH * HEIGHT + y * WIDTH + x
}

/// The offset, in half units, of the block with index `b`.
pub open spec fn block_offset(b: int) -> HalfVec3 {
    half3(2 * (b % 10), 2 * ((b / 10) % 10), 2 * (b / 100))
}

/// The vertex at index `i` of a chunk mesh.
pub open spec fn chunk_vertex(i: int) -> Vertex {
    cube_at(block_offset(i / 36))[i % 36]
}

/// The whole mesh of a chunk: one translated cube per block, in block order.
pub open spec fn chunk_mesh() -> Seq<Vertex> {
    Seq::new((TOTAL_BLOCKS_IN_CHUNK * VERTICES_PER_CUBE) as nat, |i: int| chunk_vertex(i))
}

proof fn lemma_face_positions_small(face: CubeFace, k: int)
    requires
        0 <= k < 6,
    ensures
        face_vertices(face).len() == 6,
        -1 <= face_vertices(face)[k].pos.x <= 1,
        -1 <= face_vertices(face)[k].pos.y <= 1,
        -1 <= face_vertices(face)[k].pos.z <= 1,
{
    let s = face_vertices(face);
    assert(s.len() == 6);
    if k == 0 {
    } else if k == 1 {
    } else if k == 2 {
    } else if k == 3 {
    } else if k == 4 {
    } else {
    }
}

/// Moves one vertex by `offset`.
fn offset_vertex_exec(v: &Vertex, offset: HalfVec3) -> (r: Vertex)
    requires
        offset_fits(v.pos, offset),
    ensures
        r == offset_vertex(*v, offset),
{
    Vertex {
        pos: HalfVec3 { x: v.pos.x + offset.x, y: v.pos.y + offset.y, z: v.pos.z + offset.z },
        color: v.color,
        tex_coord: v.tex_coord,
        normals: v.normals,
    }
}

/// Moves the six vertices of a face by `offset`.
pub fn offset_face(face: &[Vertex; 6], offset: HalfVec3) -> (r: [Vertex; 6])
    requires
        forall|k: int| 0 <= k < 6 ==> offset_fits(#[trigger] face@[k].pos, offset),
    ensures
        r@ == face@.map_values(|v: Vertex| offset_vertex(v, offset)),
{
    let r = [
        offset_vertex_exec(&face[0], offset),
        offset_vertex_exec(&face[1], offset),
        offset_vertex_exec(&face[2], offset),
        offset_vertex_exec(&face[3], offset),
        offset_vertex_exec(&face[4], offset),
        offset_vertex_exec(&face[5], offset),
    ];
    assert(r@ =~= face@.map_values(|v: Vertex| offset_vertex(v, offset)));
    r
}

/// Appends the unit cube moved by `offset` to `mesh`.
fn append_cube(mesh: &mut Vec<Vertex>, offset: HalfVec3)
    requires
        small_offset(offset),
    ensures
        final(mesh)@ == old(mesh)@ + cube_at(offset),
{
    let ghost start = mesh@;
    let mut f: usize = 0;
    while f < FACES_PER_CUBE
        invariant
            f <= FACES_PER_CUBE,
            small_offset(offset),
            mesh@ == start + cube_at(offset).take(f * 6),
        decreases FACES_PER_CUBE - f,
    {
        let face = cube_face(face_at_index(f));
        proof {
            assert forall|k: int| 0 <= k < 6 implies offset_fits(#[trigger] face@[k].pos, offset) by {
                lemma_face_positions_small(face_at(f as int), k);
            }
        }
        let moved = offset_face(&face, offset);
        let mut k: usize = 0;
        while k < VERTICES_PER_FACE
            invariant
                f < FACES_PER_CUBE,
                k <= VERTICES_PER_FACE,
                moved@ == face_vertices(face_at(f as int)).map_values(|v: Vertex| offset_vertex(v, offset)),
                mesh@ == start + cube_at(offset).take(f * 6 + k),
            decreases VERTICES_PER_FACE - k,
        {
            mesh.push(moved[k]);
            proof {
                let j = f * 6 + k;
                assert(j / 6 == f as int && j % 6 == k as int) by {
                    lemma_fundamental_div_mod_converse(j as int, 6, f as int, k as int);
                }
                assert(cube_at(offset).take(j + 1) =~= cube_at(offset).take(j as int).push(cube_at(offset)[j as int]));
            }
            k += 1;
        }
        f += 1;
    }
    assert(cube_at(offset).take(36) =~= cube_at(offset));
}

/// The mesh of a single cube at the origin.
pub fn generate_cube_mesh() -> (mesh: Vec<Vertex>)
    ensures
        mesh@ == cube_at(half3(0, 0, 0)),
{
    let mut mesh: Vec<Vertex> = Vec::with_capacity(VERTICES_PER_CUBE);
    let pos = HalfVec3 { x: 0, y: 0, z: 0 };
    append_cube(&mut mesh, pos);
    assert(mesh@ =~= cube_at(half3(0, 0, 0)));
    mesh
}

/// The index of block `(x, y, z)` in the occupancy order of a chunk.
pub fn to_1d_array(x: u32, y: u32, z: u32) -> (r: u32)
    requires
        block_index(x as int, y as int, z as int) <= u32::MAX,
    ensures
        r == block_index(x as int, y as int, z as int),
{
    (z * WIDTH * HEIGHT) + (y * WIDTH) + x
}

/// Block `(x, y, z)` of a chunk has index `b` and sits at offset `(2x, 2y, 2z)`.
proof fn lemma_block_offset(x: int, y: int, z: int)
    requires
        0 <= x < WIDTH,
        0 <= y < HEIGHT,
        0 <= z < WIDTH,
    ensures
        0 <= block_index(x, y, z) < TOTAL_BLOCKS_IN_CHUNK,
        block_offset(block_index(x, y, z)) == half3(2 * x, 2 * y, 2 * z),
{
    let b = block_index(x, y, z);
    lemma_fundamental_div_mod_converse(b, 10, y + 10 * z, x);
    lemma_fundamental_div_mod_converse(y + 10 * z, 10, z, y);
    lemma_fundamental_div_mod_converse(b, 100, z, 10 * y + x);
}

/// Element `b * 36 + j` of the chunk mesh is vertex `j` of block `b`.
proof fn lemma_chunk_vertex(b: int, j: int)
    requires
        0 <= j < 36,
    ensures
        chunk_vertex(b * 36 + j) == cube_at(block_offset(b))[j],
{
    lemma_fundamental_div_mod_converse(b * 36 + j, 36, b, j);
}

/// The mesh of a chunk: a cube for every block position, walking z, then y,
/// then x, so that the cube of block `(x, y, z)` starts at vertex
/// `36 * to_1d_array(x, y, z)`.
pub fn generate_chunk_mesh(_chunk: &Chunk) -> (mesh: Vec<Vertex>)
    ensures
        mesh@ == chunk_mesh(),
{
    let mut mesh: Vec<Vertex> = Vec::new();
    let mut z: u32 = 0;
    while z < WIDTH
        invariant
            z <= WIDTH,
            mesh@ == chunk_mesh().take(block_index(0, 0, z as int) * 36),
        decreases WIDTH - z,
    {
        let mut y: u32 = 0;
        while y < HEIGHT
            invariant
                z < WIDTH,
                y <= HEIGHT,
                mesh@ == chunk_mesh().take(block_index(0, y as int, z as int) * 36),
            decreases HEIGHT - y,
        {
            let mut x: u32 = 0;
            while x < WIDTH
                invariant
                    z < WIDTH,
                    y < HEIGHT,
                    x <= WIDTH,
                    mesh@ == chunk_mesh().take(block_index(x as int, y as int, z as int) * 36),
                decreases WIDTH - x,
            {
                let pos = HalfVec3 { x: 2 * x as i32, y: 2 * y as i32, z: 2 * z as i32 };
                let ghost before = mesh@;
                append_cube(&mut mesh, pos);
                proof {
                    let b = block_index(x as int, y as int, z as int);
                    lemma_block_offset(x as int, y as int, z as int);
                    assert(pos == half3(2 * x, 2 * y, 2 * z));
                    assert forall|j: int| 0 <= j < 36 implies chunk_mesh()[b * 36 + j] == cube_at(pos)[j] by {
                        lemma_chunk_vertex(b, j);
                    }
                    assert(mesh@ =~= chunk_mesh().take((b + 1) * 36));
                }
                x += 1;
            }
            y += 1;
        }
        z += 1;
    }
    assert(mesh@ =~= chunk_mesh());
    mesh
}

/// The cube of block `(x, y, z)` occupies vertices `36 * b .. 36 * b + 36` of
/// the chunk mesh, where `b` is `to_1d_array(x, y, z)`, and it is the unit
/// cube moved by `(x, y, z)`.
pub proof fn lemma_chunk_block_is_translated_cube(x: int, y: int, z: int)
    requires
        0 <= x < WIDTH,
        0 <= y < HEIGHT,
        0 <= z < WIDTH,
    ensures
        0 <= block_index(x, y, z) < TOTAL_BLOCKS_IN_CHUNK,
        chunk_mesh().subrange(block_index(x, y, z) * 36, block_index(x, y, z) * 36 + 36)
            == cube_at(half3(2 * x, 2 * y, 2 * z)),
{
    let b = block_index(x, y, z);
    lemma_block_offset(x, y, z);
    assert forall|j: int| 0 <= j < 36 implies chunk_mesh()[b * 36 + j] == #[trigger] cube_at(
        half3(2 * x, 2 * y, 2 * z),
    )[j] by {
        lemma_chunk_vertex(b, j);
    }
    assert(chunk_mesh().subrange(b * 36, b * 36 + 36) =~= cube_at(half3(2 * x, 2 * y, 2 * z)));
}

/// Every block index of a chunk comes from exactly one in-range position:
/// `block_index` is a bijection between the grid and `0 .. TOTAL_BLOCKS_IN_CHUNK`.
pub proof fn lemma_block_index_bijective(b: int)
    requires
        0 <= b < TOTAL_BLOCKS_IN_CHUNK,
    ensures
        0 <= b % 10 < WIDTH,
        0 <= (b / 10) % 10 < HEIGHT,
        0 <= b / 100 < WIDTH,
        block_index(b % 10, (b / 10) % 10, b / 100) == b,
        forall|x: int, y: int, z: int|
            0 <= x < WIDTH && 0 <= y < HEIGHT && 0 <= z < WIDTH && #[trigger] block_index(x, y, z)
                == b ==> x == b % 10 && y == (b / 10) % 10 && z == b / 100,
{
    let x = b % 10;
    let q = b / 10;
    lemma_fundamental_div_mod_converse(b, 10, q, x);
    lemma_fundamental_div_mod_converse(q, 10, q / 10, q % 10);
    lemma_fundamental_div_mod_converse(b, 100, q / 10, 10 * (q % 10) + x);
    assert forall|x2: int, y2: int, z2: int|
        0 <= x2 < WIDTH && 0 <= y2 < HEIGHT && 0 <= z2 < WIDTH && #[trigger] block_index(x2, y2, z2)
            == b implies x2 == b % 10 && y2 == (b / 10) % 10 && z2 == b / 100 by {
        lemma_block_offset(x2, y2, z2);
    }
}

/// The single-cube mesh is the first block of a chunk mesh.
pub proof fn lemma_cube_mesh_is_first_block()
    ensures
        chunk_mesh().take(36) == cube_at(half3(0, 0, 0)),
{
    lemma_chunk_block_is_translated_cube(0, 0, 0);
    assert(chunk_mesh().take(36) =~= chunk_mesh().subrange(0, 36));
}

/// Moving a cube by `offset` moves every vertex of the cube at the origin by
/// `offset`.
pub proof fn lemma_cube_at_translates(offset: HalfVec3)
    requires
        small_offset(offset),
    ensures
        cube_at(offset) == cube_at(half3(0, 0, 0)).map_values(|v: Vertex| offset_vertex(v, offset)),
{
    assert forall|j: int| 0 <= j < 36 implies cube_at(offset)[j] == offset_vertex(
        cube_at(half3(0, 0, 0))[j],
        offset,
    ) by {
        lemma_face_positions_small(face_at(j / 6), j % 6);
    }
    assert(cube_at(offset) =~= cube_at(half3(0, 0, 0)).map_values(
        |v: Vertex| offset_vertex(v, offset),
    ));
}

/// Moving by the zero offset leaves a vertex unchanged, and two moves add up.
pub proof fn lemma_offset_vertex_composes(v: Vertex, a: HalfVec3, b: HalfVec3)
    requires
        offset_fits(v.pos, a),
        offset_fits(offset_vertex(v, a).pos, b),
        offset_fits(a, b),
        offset_fits(v.pos, half3(a.x + b.x, a.y + b.y, a.z + b.z)),
    ensures
        offset_vertex(v, half3(0, 0, 0)) == v,
        offset_vertex(offset_vertex(v, a), b) == offset_vertex(v, half3(a.x + b.x, a.y + b.y, a.z + b.z)),
{
}

/// Each face's vertices carry the face's outward unit normal (one axis,
/// length one) and lie on the face's plane, half a unit from the centre along
/// that normal.
pub proof fn lemma_face_on_its_plane(face: CubeFace, k: int)
    requires
        0 <= k < 6,
    ensures
        ({
            let v = face_vertices(face)[k];
            let n = face_vertices(face)[0].normals;
            &&& v.normals == n
            &&& (n.x == 2 || n.x == -2) ==> n.y == 0 && n.z == 0 && 2 * v.pos.x == n.x
            &&& (n.y == 2 || n.y == -2) ==> n.x == 0 && n.z == 0 && 2 * v.pos.y == n.y
            &&& (n.z == 2 || n.z == -2) ==> n.x == 0 && n.y == 0 && 2 * v.pos.z == n.z
            &&& n.x == 2 || n.x == -2 || n.y == 2 || n.y == -2 || n.z == 2 || n.z == -2
        }),
{
    lemma_face_positions_small(face, k);
    if k == 0 {
    } else if k == 1 {
    } else if k == 2 {
    } else if k == 3 {
    } else if k == 4 {
    } else {
    }
}

/// The outward normal of each face of the unit cube, in half units.
pub open spec fn outward_normal(face: CubeFace) -> HalfVec3 {
    match face {
        CubeFace::Back => half3(0, 0, -2),
        CubeFace::Front => half3(0, 0, 2),
        CubeFace::Left => half3(-2, 0, 0),
        CubeFace::Right => half3(2, 0, 0),
        CubeFace::Bottom => half3(0, -2, 0),
        CubeFace::Top => half3(0, 2, 0),
    }
}

/// `(x, y, z)` is one of the four corners of `face`: a corner of the unit
/// cube (every coordinate half a unit from the centre) on the face's plane.
pub open spec fn is_face_corner(face: CubeFace, x: int, y: int, z: int) -> bool {
    let n = outward_normal(face);
    &&& x == 1 || x == -1
    &&& y == 1 || y == -1
    &&& z == 1 || z == -1
    &&& n.x != 0 ==> 2 * x == n.x
    &&& n.y != 0 ==> 2 * y == n.y
    &&& n.z != 0 ==> 2 * z == n.z
}

/// The cross product of the edges `b - a` and `c - a` of a triangle.
pub open spec fn edge_cross(a: HalfVec3, b: HalfVec3, c: HalfVec3) -> (int, int, int) {
    let (ux, uy, uz) = (b.x - a.x, b.y - a.y, b.z - a.z);
    let (vx, vy, vz) = (c.x - a.x, c.y - a.y, c.z - a.z);
    (uy * vz - uz * vy, uz * vx - ux * vz, ux * vy - uy * vx)
}

/// Each face of the unit cube is the whole square of that face: its six
/// vertices carry the face's outward normal and sit on the face's corners;
/// each of its two triangles has three distinct corners and both wind the
/// same way (clockwise seen from outside the cube, their edge cross product
/// pointing inward); and every corner of the face is a vertex of it.
pub proof fn lemma_face_is_full_square(face: CubeFace)
    ensures
        face_vertices(face).len() == 6,
        forall|k: int|
            0 <= k < 6 ==> {
                let v = #[trigger] face_vertices(face)[k];
                &&& v.normals == outward_normal(face)
                &&& is_face_corner(face, v.pos.x as int, v.pos.y as int, v.pos.z as int)
            },
        ({
            let s = face_vertices(face);
            let n = outward_normal(face);
            &&& s[0].pos != s[1].pos && s[1].pos != s[2].pos && s[0].pos != s[2].pos
            &&& s[3].pos != s[4].pos && s[4].pos != s[5].pos && s[3].pos != s[5].pos
            &&& edge_cross(s[0].pos, s[1].pos, s[2].pos) == (-2 * n.x, -2 * n.y, -2 * n.z)
            &&& edge_cross(s[3].pos, s[4].pos, s[5].pos) == (-2 * n.x, -2 * n.y, -2 * n.z)
        }),
        forall|x: int, y: int, z: int|
            #[trigger] is_face_corner(face, x, y, z) ==> exists|k: int|
                0 <= k < 6 && (#[trigger] face_vertices(face)[k]).pos.x == x
                    && face_vertices(face)[k].pos.y == y && face_vertices(face)[k].pos.z == z,
{
    let s = face_vertices(face);
    match face {
        CubeFace::Back => {
            assert(edge_cross(s[0].pos, s[1].pos, s[2].pos) == (0int, 0int, 4int)) by (nonlinear_arith)
                requires
                    s[0].pos == half3(-1, -1, -1),
                    s[1].pos == half3(1, -1, -1),
                    s[2].pos == half3(1, 1, -1),
            ;
            assert(edge_cross(s[3].pos, s[4].pos, s[5].pos) == (0int, 0int, 4int)) by (nonlinear_arith)
                requires
                    s[3].pos == half3(1, 1, -1),
                    s[4].pos == half3(-1, 1, -1),
                    s[5].pos == half3(-1, -1, -1),
            ;
        },
        CubeFace::Front => {
            assert(edge_cross(s[0].pos, s[1].pos, s[2].pos) == (0int, 0int, -4int)) by (nonlinear_arith)
                requires
                    s[0].pos == half3(-1, -1, 1),
                    s[1].pos == half3(-1, 1, 1),
                    s[2].pos == half3(1, 1, 1),
            ;
            assert(edge_cross(s[3].pos, s[4].pos, s[5].pos) == (0int, 0int, -4int)) by (nonlinear_arith)
                requires
                    s[3].pos == half3(1, 1, 1),
                    s[4].pos == half3(1, -1, 1),
                    s[5].pos == half3(-1, -1, 1),
            ;
        },
        CubeFace::Left => {
            assert(edge_cross(s[0].pos, s[1].pos, s[2].pos) == (4int, 0int, 0int)) by (nonlinear_arith)
                requires
                    s[0].pos == half3(-1, 1, 1),
                    s[1].pos == half3(-1, -1, 1),
                    s[2].pos == half3(-1, -1, -1),
            ;
            assert(edge_cross(s[3].pos, s[4].pos, s[5].pos) == (4int, 0int, 0int)) by (nonlinear_arith)
                requires
                    s[3].pos == half3(-1, -1, -1),
                    s[4].pos == half3(-1, 1, -1),
                    s[5].pos == half3(-1, 1, 1),
            ;
        },
        CubeFace::Right => {
            assert(edge_cross(s[0].pos, s[1].pos, s[2].pos) == (-4int, 0int, 0int)) by (nonlinear_arith)
                requires
                    s[0].pos == half3(1, 1, 1),
                    s[1].pos == half3(1, 1, -1),
                    s[2].pos == half3(1, -1, -1),
            ;
            assert(edge_cross(s[3].pos, s[4].pos, s[5].pos) == (-4int, 0int, 0int)) by (nonlinear_arith)
                requires
                    s[3].pos == half3(1, -1, -1),
                    s[4].pos == half3(1, -1, 1),
                    s[5].pos == half3(1, 1, 1),
            ;
        },
        CubeFace::Bottom => {
            assert(edge_cross(s[0].pos, s[1].pos, s[2].pos) == (0int, 4int, 0int)) by (nonlinear_arith)
                requires
                    s[0].pos == half3(-1, -1, -1),
                    s[1].pos == half3(-1, -1, 1),
                    s[2].pos == half3(1, -1, 1),
            ;
            assert(edge_cross(s[3].pos, s[4].pos, s[5].pos) == (0int, 4int, 0int)) by (nonlinear_arith)
                requires
                    s[3].pos == half3(1, -1, 1),
                    s[4].pos == half3(1, -1, -1),
                    s[5].pos == half3(-1, -1, -1),
            ;
        },
        CubeFace::Top => {
            assert(edge_cross(s[0].pos, s[1].pos, s[2].pos) == (0int, -4int, 0int)) by (nonlinear_arith)
                requires
                    s[0].pos == half3(-1, 1, -1),
                    s[1].pos == half3(1, 1, -1),
                    s[2].pos == half3(1, 1, 1),
            ;
            assert(edge_cross(s[3].pos, s[4].pos, s[5].pos) == (0int, -4int, 0int)) by (nonlinear_arith)
                requires
                    s[3].pos == half3(1, 1, 1),
                    s[4].pos == half3(-1, 1, 1),
                    s[5].pos == half3(-1, 1, -1),
            ;
        },
    }
    assert forall|k: int| 0 <= k < 6 implies {
        let v = #[trigger] face_vertices(face)[k];
        &&& v.normals == outward_normal(face)
        &&& is_face_corner(face, v.pos.x as int, v.pos.y as int, v.pos.z as int)
    } by {
        if k == 0 {
        } else if k == 1 {
        } else if k == 2 {
        } else if k == 3 {
        } else if k == 4 {
        } else {
        }
    }
    assert forall|x: int, y: int, z: int| #[trigger] is_face_corner(face, x, y, z) implies exists|k: int|
        0 <= k < 6 && (#[trigger] face_vertices(face)[k]).pos.x == x && face_vertices(face)[k].pos.y
            == y && face_vertices(face)[k].pos.z == z by {
        // Vertices 0, 1, 2 and 4 are the face's four corners.
        let p0 = s[0];
        let p1 = s[1];
        let p2 = s[2];
        let p4 = s[4];
    }
}

} // verus!
