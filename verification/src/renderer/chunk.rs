//! Mesh generation for chunks: each block contributes the faces of its cube
//! that are not hidden behind a solid neighbour.

use vstd::prelude::*;

use crate::renderer::{Normal, Vertex};
use crate::world::{block_in, is_walk_of, Blocks, Chunk, Coord, CHUNK_EDGE};

verus! {

/// One of the six faces of a block's cube.
#[derive(Copy, Clone, PartialEq, Eq, Structural, Debug)]
pub enum Face {
    /// Towards smaller x.
    Left,
    /// Towards greater x.
    Right,
    /// Towards greater y.
    Top,
    /// Towards smaller y.
    Bottom,
    /// Towards smaller z.
    Front,
    /// Towards greater z.
    Back,
}

/// The corners of the unit cube: the top four clockwise from the back left,
/// then the bottom four likewise.
pub open spec fn cube_corners() -> Seq<(int, int, int)> {
    seq![
        (0, 1, 1),
        (1, 1, 1),
        (1, 1, 0),
        (0, 1, 0),
        (0, 0, 1),
        (1, 0, 1),
        (1, 0, 0),
        (0, 0, 0),
    ]
}

/// The normal at each corner of the unit cube, in the order of
/// [`cube_corners`].
pub open spec fn cube_normals() -> Seq<(int, int, int)> {
    seq![
        (-1, 1, 1),
        (1, 1, 1),
        (1, 1, -1),
        (-1, 1, -1),
        (-1, -1, 1),
        (1, -1, 1),
        (1, -1, -1),
        (-1, -1, -1),
    ]
}

/// The corners that make up the two triangles of a face, as indices into
/// [`cube_corners`].
pub open spec fn face_corners(face: Face) -> Seq<int> {
    match face {
        Face::Left => seq![0, 3, 7, 3, 4, 7],
        Face::Right => seq![1, 2, 5, 2, 5, 6],
        Face::Top => seq![0, 1, 2, 0, 2, 3],
        Face::Bottom => seq![4, 5, 6, 5, 6, 7],
        Face::Front => seq![2, 3, 6, 2, 3, 7],
        Face::Back => seq![0, 1, 4, 0, 1, 5],
    }
}

/// The vertex at corner `i` of the block at `c`.
pub open spec fn corner_vertex(c: Coord, i: int) -> Vertex {
    let o = cube_corners()[i];
    Vertex { position: ((c.0 + o.0) as u16, (c.1 + o.1) as u16, (c.2 + o.2) as u16) }
}

/// The normal at corner `i` of any block.
pub open spec fn corner_normal(i: int) -> Normal {
    let n = cube_normals()[i];
    Normal { normal: (n.0 as i8, n.1 as i8, n.2 as i8) }
}

/// The six vertices of one face of the block at `c`.
pub open spec fn face_vertices(c: Coord, face: Face) -> Seq<Vertex> {
    Seq::new(6, |k: int| corner_vertex(c, face_corners(face)[k]))
}

/// The six normals of one face, parallel to [`face_vertices`].
pub open spec fn face_normals(face: Face) -> Seq<Normal> {
    Seq::new(6, |k: int| corner_normal(face_corners(face)[k]))
}

/// The coordinate that lies across `face` from `c`, if it is still inside
/// the chunk: 16 blocks wide along x and z, 256 blocks high.
pub open spec fn neighbour(c: Coord, face: Face) -> Option<Coord> {
    match face {
        Face::Left => if c.0 == 0 {
            None
        } else {
            Some(((c.0 - 1) as u8, c.1, c.2))
        },
        Face::Right => if c.0 >= CHUNK_EDGE {
            None
        } else {
            Some(((c.0 + 1) as u8, c.1, c.2))
        },
        Face::Top => if c.1 == u8::MAX {
            None
        } else {
            Some((c.0, (c.1 + 1) as u8, c.2))
        },
        Face::Bottom => if c.1 == 0 {
            None
        } else {
            Some((c.0, (c.1 - 1) as u8, c.2))
        },
        Face::Front => if c.2 == 0 {
            None
        } else {
            Some((c.0, c.1, (c.2 - 1) as u8))
        },
        Face::Back => if c.2 >= CHUNK_EDGE {
            None
        } else {
            Some((c.0, c.1, (c.2 + 1) as u8))
        },
    }
}

/// Whether the face of the block at `c` is drawn: a face on the chunk's
/// boundary always is, any other only if the block across it is not solid.
pub open spec fn face_visible(blocks: Blocks, c: Coord, face: Face) -> bool {
    match neighbour(c, face) {
        None => true,
        Some(n) => !block_in(blocks, n).spec_is_solid(),
    }
}

/// How many faces of the block at `c` are drawn.
pub open spec fn visible_face_count(blocks: Blocks, c: Coord) -> nat {
    let shown = |face: Face| if face_visible(blocks, c, face) { 1nat } else { 0nat };
    shown(Face::Left) + shown(Face::Right) + shown(Face::Front) + shown(Face::Back) + shown(
        Face::Bottom,
    ) + shown(Face::Top)
}

/// How many faces are drawn for the blocks at `order` taken together.
pub open spec fn mesh_face_count(blocks: Blocks, order: Seq<Coord>) -> nat
    decreases order.len(),
{
    if order.len() == 0 {
        0
    } else {
        mesh_face_count(blocks, order.drop_last()) + visible_face_count(blocks, order.last())
    }
}

/// What one face of the block at `c` adds to the vertices of a mesh: its
/// six vertices if it is drawn, nothing if it is hidden.
pub open spec fn shown_vertices(blocks: Blocks, c: Coord, face: Face) -> Seq<Vertex> {
    if face_visible(blocks, c, face) {
        face_vertices(c, face)
    } else {
        Seq::empty()
    }
}

/// What one face of the block at `c` adds to the normals of a mesh.
pub open spec fn shown_normals(blocks: Blocks, c: Coord, face: Face) -> Seq<Normal> {
    if face_visible(blocks, c, face) {
        face_normals(face)
    } else {
        Seq::empty()
    }
}

/// The vertices that the block at `c` adds to a mesh.
pub open spec fn block_vertices(blocks: Blocks, c: Coord) -> Seq<Vertex> {
    shown_vertices(blocks, c, Face::Left) + shown_vertices(blocks, c, Face::Right)
        + shown_vertices(blocks, c, Face::Front) + shown_vertices(blocks, c, Face::Back)
        + shown_vertices(blocks, c, Face::Bottom) + shown_vertices(blocks, c, Face::Top)
}

/// The normals that the block at `c` adds to a mesh.
pub open spec fn block_normals(blocks: Blocks, c: Coord) -> Seq<Normal> {
    shown_normals(blocks, c, Face::Left) + shown_normals(blocks, c, Face::Right) + shown_normals(
        blocks,
        c,
        Face::Front,
    ) + shown_normals(blocks, c, Face::Back) + shown_normals(blocks, c, Face::Bottom)
        + shown_normals(blocks, c, Face::Top)
}

/// The vertices of the mesh that visits the blocks at `order`, one after
/// the other.
pub open spec fn mesh_vertices(blocks: Blocks, order: Seq<Coord>) -> Seq<Vertex>
    decreases order.len(),
{
    if order.len() == 0 {
        Seq::empty()
    } else {
        mesh_vertices(blocks, order.drop_last()) + block_vertices(blocks, order.last())
    }
}

/// The normals of the mesh that visits the blocks at `order`, parallel to
/// [`mesh_vertices`].
pub open spec fn mesh_normals(blocks: Blocks, order: Seq<Coord>) -> Seq<Normal>
    decreases order.len(),
{
    if order.len() == 0 {
        Seq::empty()
    } else {
        mesh_normals(blocks, order.drop_last()) + block_normals(blocks, order.last())
    }
}

/// Appending six sequences one by one appends their concatenation.
proof fn lemma_concat_six<A>(
    base: Seq<A>,
    a: Seq<A>,
    b: Seq<A>,
    c: Seq<A>,
    d: Seq<A>,
    e: Seq<A>,
    f: Seq<A>,
)
    ensures
        base + a + b + c + d + e + f == base + (a + b + c + d + e + f),
{
    assert(base + a + b + c + d + e + f =~= base + (a + b + c + d + e + f));
}

/// Every face has six vertices and six normals: two triangles.
pub proof fn lemma_face_len(c: Coord, face: Face)
    ensures
        face_vertices(c, face).len() == 6,
        face_normals(face).len() == 6,
{
}

/// A block adds six vertices, and as many normals, for each of its faces
/// that is drawn.
pub proof fn lemma_block_len(blocks: Blocks, c: Coord)
    ensures
        block_vertices(blocks, c).len() == 6 * visible_face_count(blocks, c),
        block_normals(blocks, c).len() == 6 * visible_face_count(blocks, c),
{
}

/// A mesh has six vertices, and as many normals, for each face that is
/// drawn, in whatever order the blocks are visited.
pub proof fn lemma_mesh_len(blocks: Blocks, order: Seq<Coord>)
    ensures
        mesh_vertices(blocks, order).len() == 6 * mesh_face_count(blocks, order),
        mesh_normals(blocks, order).len() == 6 * mesh_face_count(blocks, order),
    decreases order.len(),
{
    if order.len() > 0 {
        lemma_mesh_len(blocks, order.drop_last());
        lemma_block_len(blocks, order.last());
    }
}

/// A chunk without blocks has an empty mesh.
pub proof fn lemma_empty_chunk_mesh(blocks: Blocks, order: Seq<Coord>)
    requires
        blocks.dom() == Set::<Coord>::empty(),
        is_walk_of(order, blocks),
    ensures
        mesh_vertices(blocks, order) == Seq::<Vertex>::empty(),
        mesh_normals(blocks, order) == Seq::<Normal>::empty(),
{
    if order.len() > 0 {
        assert(order.to_set().contains(order[0]));
    }
}

/// A block with no solid block next to it shows all six faces: twelve
/// triangles, thirty-six vertices.
pub proof fn lemma_exposed_block_shows_all_faces(blocks: Blocks, c: Coord)
    requires
        forall|face: Face| #[trigger]
            neighbour(c, face) matches Some(n) ==> !block_in(blocks, n).spec_is_solid(),
    ensures
        forall|face: Face| face_visible(blocks, c, face),
        visible_face_count(blocks, c) == 6,
        block_vertices(blocks, c).len() == 36,
        block_normals(blocks, c).len() == 36,
        block_vertices(blocks, c) == face_vertices(c, Face::Left) + face_vertices(c, Face::Right)
            + face_vertices(c, Face::Front) + face_vertices(c, Face::Back) + face_vertices(
            c,
            Face::Bottom,
        ) + face_vertices(c, Face::Top),
{
    assert(face_visible(blocks, c, Face::Left));
    assert(face_visible(blocks, c, Face::Right));
    assert(face_visible(blocks, c, Face::Front));
    assert(face_visible(blocks, c, Face::Back));
    assert(face_visible(blocks, c, Face::Bottom));
    assert(face_visible(blocks, c, Face::Top));
    lemma_block_len(blocks, c);
}

/// The mesh of a chunk that holds a single block is that block with all six
/// faces, thirty-six vertices and normals, whatever the block's coordinate.
pub proof fn lemma_single_block_mesh(blocks: Blocks, c: Coord, order: Seq<Coord>)
    requires
        blocks.dom() == set![c],
        is_walk_of(order, blocks),
    ensures
        order == seq![c],
        mesh_vertices(blocks, order) == block_vertices(blocks, c),
        mesh_normals(blocks, order) == block_normals(blocks, c),
        mesh_vertices(blocks, order).len() == 36,
        mesh_normals(blocks, order).len() == 36,
{
    order.unique_seq_to_set();
    assert(set![c].len() == 1);
    assert(order.to_set().contains(order[0]));
    assert(order =~= seq![c]);
    assert(order.drop_last() =~= Seq::<Coord>::empty());
    assert(mesh_vertices(blocks, order.drop_last()) == Seq::<Vertex>::empty());
    assert(mesh_normals(blocks, order.drop_last()) == Seq::<Normal>::empty());
    assert(mesh_vertices(blocks, order) =~= block_vertices(blocks, c));
    assert(mesh_normals(blocks, order) =~= block_normals(blocks, c));
    assert forall|face: Face| #[trigger]
        neighbour(c, face) matches Some(n) ==> !block_in(blocks, n).spec_is_solid() by {
        if let Some(n) = neighbour(c, face) {
            assert(n != c);
            assert(!blocks.dom().contains(n));
        }
    }
    lemma_exposed_block_shows_all_faces(blocks, c);
}

/// A block that has a solid block across each of its six faces shows none
/// of them: it adds nothing to the mesh.
pub proof fn lemma_enclosed_block_is_hidden(blocks: Blocks, c: Coord)
    requires
        forall|face: Face| #[trigger]
            neighbour(c, face) matches Some(n) && block_in(blocks, n).spec_is_solid(),
    ensures
        forall|face: Face| !face_visible(blocks, c, face),
        visible_face_count(blocks, c) == 0,
        block_vertices(blocks, c) == Seq::<Vertex>::empty(),
        block_normals(blocks, c) == Seq::<Normal>::empty(),
{
    assert forall|face: Face| !face_visible(blocks, c, face) by {
        assert(neighbour(c, face) matches Some(n) && block_in(blocks, n).spec_is_solid());
    }
    assert(!face_visible(blocks, c, Face::Left));
    assert(!face_visible(blocks, c, Face::Right));
    assert(!face_visible(blocks, c, Face::Front));
    assert(!face_visible(blocks, c, Face::Back));
    assert(!face_visible(blocks, c, Face::Bottom));
    assert(!face_visible(blocks, c, Face::Top));
    assert(block_vertices(blocks, c) =~= Seq::<Vertex>::empty());
    assert(block_normals(blocks, c) =~= Seq::<Normal>::empty());
}

/// Builds chunk meshes.
pub struct ChunkRenderer;

impl ChunkRenderer {
    /// The two triangles of one face of the block at `(x, y, z)`, with the
    /// normal of each vertex.
    pub fn face_for_direction(x: u8, y: u8, z: u8, direction: Face) -> (face: (
        [Vertex; 6],
        [Normal; 6],
    ))
        ensures
            face.0@ == face_vertices((x, y, z), direction),
            face.1@ == face_normals(direction),
    {
        let (x0, y0, z0): (u16, u16, u16) = (x as u16, y as u16, z as u16);
        let (x1, y1, z1): (u16, u16, u16) = (x0 + 1, y0 + 1, z0 + 1);
        let v = [
            Vertex { position: (x0, y1, z1) },
            Vertex { position: (x1, y1, z1) },
            Vertex { position: (x1, y1, z0) },
            Vertex { position: (x0, y1, z0) },
            Vertex { position: (x0, y0, z1) },
            Vertex { position: (x1, y0, z1) },
            Vertex { position: (x1, y0, z0) },
            Vertex { position: (x0, y0, z0) },
        ];
        let n = [
            Normal { normal: (-1, 1, 1) },
            Normal { normal: (1, 1, 1) },
            Normal { normal: (1, 1, -1) },
            Normal { normal: (-1, 1, -1) },
            Normal { normal: (-1, -1, 1) },
            Normal { normal: (1, -1, 1) },
            Normal { normal: (1, -1, -1) },
            Normal { normal: (-1, -1, -1) },
        ];
        let face = match direction {
            Face::Left => ([v[0], v[3], v[7], v[3], v[4], v[7]], [n[0], n[3], n[7], n[3], n[4], n[7]]),
            Face::Right => (
                [v[1], v[2], v[5], v[2], v[5], v[6]],
                [n[1], n[2], n[5], n[2], n[5], n[6]],
            ),
            Face::Top => ([v[0], v[1], v[2], v[0], v[2], v[3]], [n[0], n[1], n[2], n[0], n[2], n[3]]),
            Face::Bottom => (
                [v[4], v[5], v[6], v[5], v[6], v[7]],
                [n[4], n[5], n[6], n[5], n[6], n[7]],
            ),
            Face::Front => (
                [v[2], v[3], v[6], v[2], v[3], v[7]],
                [n[2], n[3], n[6], n[2], n[3], n[7]],
            ),
            Face::Back => ([v[0], v[1], v[4], v[0], v[1], v[5]], [n[0], n[1], n[4], n[0], n[1], n[5]]),
        };
        assert(face.0@ =~= face_vertices((x, y, z), direction));
        assert(face.1@ =~= face_normals(direction));
        face
    }

    /// Whether the face `direction` of the block at `(x, y, z)` is drawn.
    pub fn face_is_visible(chunk: &Chunk, x: u8, y: u8, z: u8, direction: Face) -> (visible: bool)
        ensures
            visible == face_visible(chunk@, (x, y, z), direction),
    {
        match direction {
            Face::Left => x == 0 || !chunk.block_at(x - 1, y, z).is_solid(),
            Face::Right => x >= CHUNK_EDGE || !chunk.block_at(x + 1, y, z).is_solid(),
            Face::Top => y == u8::MAX || !chunk.block_at(x, y + 1, z).is_solid(),
            Face::Bottom => y == 0 || !chunk.block_at(x, y - 1, z).is_solid(),
            Face::Front => z == 0 || !chunk.block_at(x, y, z - 1).is_solid(),
            Face::Back => z >= CHUNK_EDGE || !chunk.block_at(x, y, z + 1).is_solid(),
        }
    }

    /// Appends one face of the block at `(x, y, z)` to a mesh, if it is
    /// drawn.
    fn push_face(
        chunk: &Chunk,
        x: u8,
        y: u8,
        z: u8,
        direction: Face,
        verts: &mut Vec<Vertex>,
        norms: &mut Vec<Normal>,
    )
        ensures
            final(verts)@ == old(verts)@ + shown_vertices(chunk@, (x, y, z), direction),
            final(norms)@ == old(norms)@ + shown_normals(chunk@, (x, y, z), direction),
    {
        if Self::face_is_visible(chunk, x, y, z, direction) {
            let (v, n) = Self::face_for_direction(x, y, z, direction);
            verts.extend_from_slice(&v);
            norms.extend_from_slice(&n);
            assert(verts@ =~= old(verts)@ + face_vertices((x, y, z), direction));
            assert(norms@ =~= old(norms)@ + face_normals(direction));
        } else {
            assert(verts@ =~= old(verts)@ + Seq::<Vertex>::empty());
            assert(norms@ =~= old(norms)@ + Seq::<Normal>::empty());
        }
    }

    /// Appends the faces of the block at `(x, y, z)` that are drawn to a
    /// mesh.
    fn push_block(
        chunk: &Chunk,
        x: u8,
        y: u8,
        z: u8,
        verts: &mut Vec<Vertex>,
        norms: &mut Vec<Normal>,
    )
        ensures
            final(verts)@ == old(verts)@ + block_vertices(chunk@, (x, y, z)),
            final(norms)@ == old(norms)@ + block_normals(chunk@, (x, y, z)),
    {
        Self::push_face(chunk, x, y, z, Face::Left, verts, norms);
        Self::push_face(chunk, x, y, z, Face::Right, verts, norms);
        Self::push_face(chunk, x, y, z, Face::Front, verts, norms);
        Self::push_face(chunk, x, y, z, Face::Back, verts, norms);
        Self::push_face(chunk, x, y, z, Face::Bottom, verts, norms);
        Self::push_face(chunk, x, y, z, Face::Top, verts, norms);
        proof {
            let c = (x, y, z);
            lemma_concat_six(
                old(verts)@,
                shown_vertices(chunk@, c, Face::Left),
                shown_vertices(chunk@, c, Face::Right),
                shown_vertices(chunk@, c, Face::Front),
                shown_vertices(chunk@, c, Face::Back),
                shown_vertices(chunk@, c, Face::Bottom),
                shown_vertices(chunk@, c, Face::Top),
            );
            lemma_concat_six(
                old(norms)@,
                shown_normals(chunk@, c, Face::Left),
                shown_normals(chunk@, c, Face::Right),
                shown_normals(chunk@, c, Face::Front),
                shown_normals(chunk@, c, Face::Back),
                shown_normals(chunk@, c, Face::Bottom),
                shown_normals(chunk@, c, Face::Top),
            );
        }
    }

    /// The mesh of a chunk that visits the blocks at `order`, one after the
    /// other: for each the faces that are drawn, two triangles a face.
    pub fn mesh_along(chunk: &Chunk, order: &Vec<Coord>) -> (mesh: (
        Vec<Vertex>,
        Vec<Normal>,
    ))
        ensures
            mesh.0@ == mesh_vertices(chunk@, order@),
            mesh.1@ == mesh_normals(chunk@, order@),
    {
        let mut verts: Vec<Vertex> = Vec::new();
        let mut norms: Vec<Normal> = Vec::new();
        for i in 0..order.len()
            invariant
                verts@ == mesh_vertices(chunk@, order@.take(i as int)),
                norms@ == mesh_normals(chunk@, order@.take(i as int)),
        {
            let (x, y, z) = order[i];
            Self::push_block(chunk, x, y, z, &mut verts, &mut norms);
            proof {
                let next = order@.take(i + 1);
                assert(next.drop_last() =~= order@.take(i as int));
                assert(next.last() == (x, y, z));
            }
        }
        assert(order@.take(order.len() as int) =~= order@);
        (verts, norms)
    }

    /// The mesh of a chunk: for every block the faces that are drawn. The
    /// blocks are visited in the order in which the chunk hands them out.
    pub fn generate_mesh(chunk: &Chunk) -> (mesh: (Vec<Vertex>, Vec<Normal>))
        ensures
            exists|order: Seq<Coord>|
                {
                    &&& #[trigger] is_walk_of(order, chunk@)
                    &&& mesh.0@ == mesh_vertices(chunk@, order)
                    &&& mesh.1@ == mesh_normals(chunk@, order)
                },
    {
        let order = chunk.occupied();
        Self::mesh_along(chunk, &order)
    }

    /// Where the mesh of a chunk is placed in the world: the chunk's origin
    /// along x and z, in block units. A mesh is built around the origin
    /// and moved there when it is drawn.
    pub fn model_offset(chunk: &Chunk) -> (offset: (u64, u64))
        ensures
            offset.0 == 16 * chunk.position().0,
            offset.1 == 16 * chunk.position().1,
    {
        let (x, z) = chunk.coordinates();
        (16 * (x as u64), 16 * (z as u64))
    }
}

} // verus!
