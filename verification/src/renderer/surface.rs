//! The mesh of a chunk that is filled with solid blocks: it is the surface
//! of the chunk and nothing else.

use vstd::prelude::*;
use vstd::relations::injective_on;
use vstd::set_lib::{lemma_int_range, lemma_map_size, set_int_range};

use crate::renderer::chunk::{
    face_visible, lemma_mesh_len, mesh_face_count, mesh_normals, mesh_vertices, neighbour, Face,
};
use crate::world::{block_in, is_walk_of, well_formed, Blocks, Coord, CHUNK_EDGE};

verus! {

/// Whether every coordinate of the chunk's footprint holds a solid block.
pub open spec fn is_full(blocks: Blocks) -> bool {
    forall|c: Coord|
        c.0 <= CHUNK_EDGE && c.2 <= CHUNK_EDGE ==> (#[trigger] block_in(blocks, c)).spec_is_solid()
}

/// The number of faces on the surface of a chunk: 256 above, 256 below, and
/// 16 by 256 on each of the four sides.
pub open spec fn surface_faces() -> nat {
    2 * 256 + 4 * (16 * 256)
}

/// In a chunk that is filled with solid blocks, a face is drawn exactly if
/// it lies on the boundary of the chunk.
pub proof fn lemma_full_chunk_shows_boundary_only(blocks: Blocks, c: Coord, face: Face)
    requires
        is_full(blocks),
        c.0 <= CHUNK_EDGE,
        c.2 <= CHUNK_EDGE,
    ensures
        face_visible(blocks, c, face) <==> neighbour(c, face) is None,
{
    if let Some(n) = neighbour(c, face) {
        assert(block_in(blocks, n).spec_is_solid());
    }
}

/// The coordinates at which `face` is drawn.
spec fn shows(blocks: Blocks, face: Face) -> spec_fn(Coord) -> bool {
    |c: Coord| face_visible(blocks, c, face)
}

/// The coordinates of the footprint whose `face` lies on the boundary of
/// the chunk.
spec fn boundary(face: Face) -> Set<Coord> {
    Set::new(
        |c: Coord| c.0 <= CHUNK_EDGE && c.2 <= CHUNK_EDGE && neighbour(c, face) is None,
    )
}

/// The coordinate of the boundary that `i` stands for: the boundary of a
/// side is counted along x or z within y, that of the top and the bottom
/// along z within x.
spec fn boundary_coord(face: Face, i: int) -> Coord {
    let (hi, lo) = ((i / 16) as u8, (i % 16) as u8);
    match face {
        Face::Left => (0, hi, lo),
        Face::Right => (CHUNK_EDGE, hi, lo),
        Face::Front => (lo, hi, 0),
        Face::Back => (lo, hi, CHUNK_EDGE),
        Face::Bottom => (hi, 0, lo),
        Face::Top => (hi, u8::MAX, lo),
    }
}

/// The rank of a coordinate of the boundary: the inverse of
/// [`boundary_coord`].
spec fn boundary_rank(face: Face, c: Coord) -> int {
    match face {
        Face::Left | Face::Right => 16 * c.1 + c.2,
        Face::Front | Face::Back => 16 * c.1 + c.0,
        Face::Bottom | Face::Top => 16 * c.0 + c.2,
    }
}

/// How many faces a chunk has on the side of `face`.
spec fn boundary_len(face: Face) -> int {
    match face {
        Face::Bottom | Face::Top => 256,
        _ => 4096,
    }
}

/// How many of the coordinates of `order` satisfy `p`.
spec fn count_where(order: Seq<Coord>, p: spec_fn(Coord) -> bool) -> nat
    decreases order.len(),
{
    if order.len() == 0 {
        0
    } else {
        count_where(order.drop_last(), p) + if p(order.last()) {
            1nat
        } else {
            0nat
        }
    }
}

/// The faces of a mesh can be counted side by side.
proof fn lemma_face_count_by_side(blocks: Blocks, order: Seq<Coord>)
    ensures
        mesh_face_count(blocks, order) == count_where(order, shows(blocks, Face::Left))
            + count_where(order, shows(blocks, Face::Right)) + count_where(
            order,
            shows(blocks, Face::Front),
        ) + count_where(order, shows(blocks, Face::Back)) + count_where(
            order,
            shows(blocks, Face::Bottom),
        ) + count_where(order, shows(blocks, Face::Top)),
    decreases order.len(),
{
    if order.len() > 0 {
        lemma_face_count_by_side(blocks, order.drop_last());
    }
}

/// Counting along a sequence without repetitions is counting in its set.
proof fn lemma_count_in_set(order: Seq<Coord>, p: spec_fn(Coord) -> bool)
    requires
        order.no_duplicates(),
    ensures
        order.to_set().filter(p).finite(),
        count_where(order, p) == order.to_set().filter(p).len(),
    decreases order.len(),
{
    if order.len() == 0 {
        assert(order.to_set().filter(p) =~= Set::empty());
    } else {
        let rest = order.drop_last();
        let last = order.last();
        lemma_count_in_set(rest, p);
        let counted = rest.to_set().filter(p);
        assert(!rest.to_set().contains(last)) by {
            if rest.to_set().contains(last) {
                let i = choose|i: int| 0 <= i < rest.len() && rest[i] == last;
                assert(order[i] == order[order.len() - 1]);
            }
        }
        assert forall|c: Coord|
            order.to_set().contains(c) <==> rest.to_set().contains(c) || c == last by {
            if order.to_set().contains(c) {
                let i = choose|i: int| 0 <= i < order.len() && order[i] == c;
                if i < rest.len() {
                    assert(rest[i] == c);
                }
            }
            if rest.to_set().contains(c) {
                let i = choose|i: int| 0 <= i < rest.len() && rest[i] == c;
                assert(order[i] == c);
            }
            if c == last {
                assert(order[order.len() - 1] == c);
            }
        }
        if p(last) {
            assert(order.to_set().filter(p) =~= counted.insert(last));
        } else {
            assert(order.to_set().filter(p) =~= counted);
        }
    }
}

/// Each side of a chunk has as many faces as its area says.
proof fn lemma_boundary_len(face: Face)
    ensures
        boundary(face).finite(),
        boundary(face).len() == boundary_len(face),
{
    let ranks = set_int_range(0, boundary_len(face));
    let coord = |i: int| boundary_coord(face, i);
    lemma_int_range(0, boundary_len(face));
    assert forall|i: int, j: int|
        ranks.contains(i) && ranks.contains(j) && #[trigger] coord(i) == #[trigger] coord(
            j,
        ) implies i == j by {
        assert(boundary_rank(face, coord(i)) == i);
        assert(boundary_rank(face, coord(j)) == j);
    }
    assert(injective_on(coord, ranks));
    assert forall|c: Coord| ranks.map(coord).contains(c) <==> boundary(face).contains(
        c,
    ) by {
        if boundary(face).contains(c) {
            let i = boundary_rank(face, c);
            assert(ranks.contains(i) && coord(i) == c);
        }
    }
    assert(ranks.map(coord) =~= boundary(face));
    lemma_map_size(ranks, boundary(face), coord);
}

/// In a full chunk the coordinates that draw `face` are those of the
/// boundary on that side.
proof fn lemma_full_chunk_shows_boundary(blocks: Blocks, face: Face)
    requires
        is_full(blocks),
        well_formed(blocks),
    ensures
        blocks.dom().filter(shows(blocks, face)) == boundary(face),
{
    assert forall|c: Coord|
        blocks.dom().filter(shows(blocks, face)).contains(c) <==> boundary(face).contains(
            c,
        ) by {
        if c.0 <= CHUNK_EDGE && c.2 <= CHUNK_EDGE {
            lemma_full_chunk_shows_boundary_only(blocks, c, face);
            assert(block_in(blocks, c).spec_is_solid());
        }
    }
    assert(blocks.dom().filter(shows(blocks, face)) =~= boundary(face));
}

/// The mesh of a chunk that is filled with solid blocks has one face for
/// each face on the surface of the chunk, six vertices and normals each, in
/// whatever order the blocks are visited.
pub proof fn lemma_full_chunk_mesh_len(blocks: Blocks, order: Seq<Coord>)
    requires
        is_full(blocks),
        well_formed(blocks),
        is_walk_of(order, blocks),
    ensures
        mesh_face_count(blocks, order) == surface_faces(),
        mesh_vertices(blocks, order).len() == 6 * surface_faces(),
        mesh_normals(blocks, order).len() == 6 * surface_faces(),
{
    lemma_face_count_by_side(blocks, order);
    lemma_side_count(blocks, order, Face::Left);
    lemma_side_count(blocks, order, Face::Right);
    lemma_side_count(blocks, order, Face::Front);
    lemma_side_count(blocks, order, Face::Back);
    lemma_side_count(blocks, order, Face::Bottom);
    lemma_side_count(blocks, order, Face::Top);
    lemma_mesh_len(blocks, order);
}

/// A walk of a full chunk draws each face of one side once.
proof fn lemma_side_count(blocks: Blocks, order: Seq<Coord>, face: Face)
    requires
        is_full(blocks),
        well_formed(blocks),
        is_walk_of(order, blocks),
    ensures
        count_where(order, shows(blocks, face)) == boundary_len(face),
{
    lemma_count_in_set(order, shows(blocks, face));
    lemma_full_chunk_shows_boundary(blocks, face);
    lemma_boundary_len(face);
}

} // verus!
