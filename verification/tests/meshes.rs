use voxel_game::renderer::chunk::{ChunkRenderer, Face};
use voxel_game::renderer::{Normal, Vertex};
use voxel_game::world::block::Block;
use voxel_game::world::{Chunk, World};

const ALL_FACES: [Face; 6] =
    [Face::Left, Face::Right, Face::Top, Face::Bottom, Face::Front, Face::Back];

fn positions(vertices: &[Vertex]) -> Vec<(u16, u16, u16)> {
    vertices.iter().map(|v| v.position).collect()
}

fn directions(normals: &[Normal]) -> Vec<(i8, i8, i8)> {
    normals.iter().map(|n| n.normal).collect()
}

fn face_count(chunk: &Chunk) -> usize {
    let (vertices, normals) = ChunkRenderer::generate_mesh(chunk);
    assert_eq!(vertices.len(), normals.len());
    assert_eq!(vertices.len() % 6, 0);
    vertices.len() / 6
}

#[test]
fn left_face_of_a_block() {
    let (v, n) = ChunkRenderer::face_for_direction(3, 4, 5, Face::Left);
    assert_eq!(
        positions(&v),
        vec![(3, 5, 6), (3, 5, 5), (3, 4, 5), (3, 5, 5), (3, 4, 6), (3, 4, 5)]
    );
    assert_eq!(
        directions(&n),
        vec![(-1, 1, 1), (-1, 1, -1), (-1, -1, -1), (-1, 1, -1), (-1, -1, 1), (-1, -1, -1)]
    );
}

#[test]
fn right_face_of_a_block() {
    let (v, n) = ChunkRenderer::face_for_direction(3, 4, 5, Face::Right);
    assert_eq!(
        positions(&v),
        vec![(4, 5, 6), (4, 5, 5), (4, 4, 6), (4, 5, 5), (4, 4, 6), (4, 4, 5)]
    );
    assert_eq!(
        directions(&n),
        vec![(1, 1, 1), (1, 1, -1), (1, -1, 1), (1, 1, -1), (1, -1, 1), (1, -1, -1)]
    );
}

#[test]
fn top_face_of_a_block() {
    let (v, n) = ChunkRenderer::face_for_direction(3, 4, 5, Face::Top);
    assert_eq!(
        positions(&v),
        vec![(3, 5, 6), (4, 5, 6), (4, 5, 5), (3, 5, 6), (4, 5, 5), (3, 5, 5)]
    );
    assert_eq!(
        directions(&n),
        vec![(-1, 1, 1), (1, 1, 1), (1, 1, -1), (-1, 1, 1), (1, 1, -1), (-1, 1, -1)]
    );
}

#[test]
fn bottom_face_of_a_block() {
    let (v, n) = ChunkRenderer::face_for_direction(3, 4, 5, Face::Bottom);
    assert_eq!(
        positions(&v),
        vec![(3, 4, 6), (4, 4, 6), (4, 4, 5), (4, 4, 6), (4, 4, 5), (3, 4, 5)]
    );
    assert_eq!(
        directions(&n),
        vec![(-1, -1, 1), (1, -1, 1), (1, -1, -1), (1, -1, 1), (1, -1, -1), (-1, -1, -1)]
    );
}

#[test]
fn front_face_of_a_block() {
    let (v, n) = ChunkRenderer::face_for_direction(3, 4, 5, Face::Front);
    assert_eq!(
        positions(&v),
        vec![(4, 5, 5), (3, 5, 5), (4, 4, 5), (4, 5, 5), (3, 5, 5), (3, 4, 5)]
    );
    assert_eq!(
        directions(&n),
        vec![(1, 1, -1), (-1, 1, -1), (1, -1, -1), (1, 1, -1), (-1, 1, -1), (-1, -1, -1)]
    );
}

#[test]
fn back_face_of_a_block() {
    let (v, n) = ChunkRenderer::face_for_direction(3, 4, 5, Face::Back);
    assert_eq!(
        positions(&v),
        vec![(3, 5, 6), (4, 5, 6), (3, 4, 6), (3, 5, 6), (4, 5, 6), (4, 4, 6)]
    );
    assert_eq!(
        directions(&n),
        vec![(-1, 1, 1), (1, 1, 1), (-1, -1, 1), (-1, 1, 1), (1, 1, 1), (1, -1, 1)]
    );
}

#[test]
fn face_at_the_origin() {
    let (v, _) = ChunkRenderer::face_for_direction(0, 0, 0, Face::Bottom);
    assert_eq!(
        positions(&v),
        vec![(0, 0, 1), (1, 0, 1), (1, 0, 0), (1, 0, 1), (1, 0, 0), (0, 0, 0)]
    );
}

#[test]
fn face_at_the_greatest_coordinate_does_not_wrap() {
    let (v, _) = ChunkRenderer::face_for_direction(255, 255, 255, Face::Top);
    assert_eq!(
        positions(&v),
        vec![
            (255, 256, 256),
            (256, 256, 256),
            (256, 256, 255),
            (255, 256, 256),
            (256, 256, 255),
            (255, 256, 255)
        ]
    );
}

#[test]
fn each_face_lies_in_its_plane() {
    for face in ALL_FACES {
        let (v, _) = ChunkRenderer::face_for_direction(10, 20, 30, face);
        for vertex in v {
            let (x, y, z) = vertex.position;
            match face {
                Face::Left => assert_eq!(x, 10),
                Face::Right => assert_eq!(x, 11),
                Face::Bottom => assert_eq!(y, 20),
                Face::Top => assert_eq!(y, 21),
                Face::Front => assert_eq!(z, 30),
                Face::Back => assert_eq!(z, 31),
            }
        }
    }
}

#[test]
fn normals_do_not_depend_on_the_block() {
    for face in ALL_FACES {
        let (_, here) = ChunkRenderer::face_for_direction(0, 0, 0, face);
        let (_, there) = ChunkRenderer::face_for_direction(15, 255, 15, face);
        assert_eq!(here, there);
    }
}

#[test]
fn empty_chunk_has_an_empty_mesh() {
    let chunk = Chunk::new(0, 0);
    let (vertices, normals) = ChunkRenderer::generate_mesh(&chunk);
    assert!(vertices.is_empty());
    assert!(normals.is_empty());
}

#[test]
fn single_block_shows_all_six_faces() {
    let mut chunk = Chunk::new(0, 0);
    chunk.set_block_at(3, 4, 5, Block::Stone);
    let (vertices, normals) = ChunkRenderer::generate_mesh(&chunk);
    assert_eq!(vertices.len(), 36);
    assert_eq!(normals.len(), 36);
    assert_eq!(vertices.len() / 3, 12);
}

#[test]
fn single_block_lists_its_faces_in_order() {
    let mut chunk = Chunk::new(0, 0);
    chunk.set_block_at(3, 4, 5, Block::Stone);
    let (vertices, normals) = ChunkRenderer::generate_mesh(&chunk);
    assert_eq!(
        positions(&vertices),
        vec![
            // left
            (3, 5, 6), (3, 5, 5), (3, 4, 5), (3, 5, 5), (3, 4, 6), (3, 4, 5),
            // right
            (4, 5, 6), (4, 5, 5), (4, 4, 6), (4, 5, 5), (4, 4, 6), (4, 4, 5),
            // front
            (4, 5, 5), (3, 5, 5), (4, 4, 5), (4, 5, 5), (3, 5, 5), (3, 4, 5),
            // back
            (3, 5, 6), (4, 5, 6), (3, 4, 6), (3, 5, 6), (4, 5, 6), (4, 4, 6),
            // bottom
            (3, 4, 6), (4, 4, 6), (4, 4, 5), (4, 4, 6), (4, 4, 5), (3, 4, 5),
            // top
            (3, 5, 6), (4, 5, 6), (4, 5, 5), (3, 5, 6), (4, 5, 5), (3, 5, 5),
        ]
    );
    assert_eq!(
        directions(&normals),
        vec![
            (-1, 1, 1), (-1, 1, -1), (-1, -1, -1), (-1, 1, -1), (-1, -1, 1), (-1, -1, -1),
            (1, 1, 1), (1, 1, -1), (1, -1, 1), (1, 1, -1), (1, -1, 1), (1, -1, -1),
            (1, 1, -1), (-1, 1, -1), (1, -1, -1), (1, 1, -1), (-1, 1, -1), (-1, -1, -1),
            (-1, 1, 1), (1, 1, 1), (-1, -1, 1), (-1, 1, 1), (1, 1, 1), (1, -1, 1),
            (-1, -1, 1), (1, -1, 1), (1, -1, -1), (1, -1, 1), (1, -1, -1), (-1, -1, -1),
            (-1, 1, 1), (1, 1, 1), (1, 1, -1), (-1, 1, 1), (1, 1, -1), (-1, 1, -1),
        ]
    );
}

#[test]
fn single_block_in_a_corner_shows_all_six_faces() {
    for (x, y, z) in [(0, 0, 0), (15, 0, 15), (0, 255, 15), (15, 255, 0)] {
        let mut chunk = Chunk::new(0, 0);
        chunk.set_block_at(x, y, z, Block::Bedrock);
        assert_eq!(face_count(&chunk), 6);
    }
}

#[test]
fn mesh_is_local_to_the_chunk() {
    let mut near = Chunk::new(0, 0);
    let mut far = Chunk::new(50, 60);
    near.set_block_at(3, 4, 5, Block::Stone);
    far.set_block_at(3, 4, 5, Block::Stone);
    assert_eq!(ChunkRenderer::generate_mesh(&near), ChunkRenderer::generate_mesh(&far));
}

#[test]
fn mesh_does_not_depend_on_the_kind_of_block() {
    let mut stone = Chunk::new(0, 0);
    let mut grass = Chunk::new(0, 0);
    stone.set_block_at(3, 4, 5, Block::Stone);
    grass.set_block_at(3, 4, 5, Block::Grass);
    assert_eq!(ChunkRenderer::generate_mesh(&stone), ChunkRenderer::generate_mesh(&grass));
}

#[test]
fn touching_blocks_hide_the_faces_between_them() {
    let mut chunk = Chunk::new(0, 0);
    chunk.set_block_at(3, 4, 5, Block::Stone);
    chunk.set_block_at(4, 4, 5, Block::Dirt);
    assert_eq!(face_count(&chunk), 10);
    assert!(!ChunkRenderer::face_is_visible(&chunk, 3, 4, 5, Face::Right));
    assert!(!ChunkRenderer::face_is_visible(&chunk, 4, 4, 5, Face::Left));
    assert!(ChunkRenderer::face_is_visible(&chunk, 3, 4, 5, Face::Left));
    assert!(ChunkRenderer::face_is_visible(&chunk, 4, 4, 5, Face::Right));
}

#[test]
fn blocks_that_touch_at_an_edge_hide_nothing() {
    let mut chunk = Chunk::new(0, 0);
    chunk.set_block_at(3, 4, 5, Block::Stone);
    chunk.set_block_at(4, 5, 5, Block::Stone);
    assert_eq!(face_count(&chunk), 12);
}

#[test]
fn each_neighbour_hides_the_face_towards_it() {
    let neighbours = [
        ((7, 8, 8), Face::Left),
        ((9, 8, 8), Face::Right),
        ((8, 9, 8), Face::Top),
        ((8, 7, 8), Face::Bottom),
        ((8, 8, 7), Face::Front),
        ((8, 8, 9), Face::Back),
    ];
    for ((x, y, z), hidden) in neighbours {
        let mut chunk = Chunk::new(0, 0);
        chunk.set_block_at(8, 8, 8, Block::Stone);
        chunk.set_block_at(x, y, z, Block::Stone);
        for face in ALL_FACES {
            assert_eq!(ChunkRenderer::face_is_visible(&chunk, 8, 8, 8, face), face != hidden);
        }
    }
}

#[test]
fn faces_on_the_boundary_are_always_drawn() {
    let mut chunk = Chunk::new(0, 0);
    for y in 0..=255u8 {
        chunk.fill_layer(y, Block::Stone);
    }
    assert!(ChunkRenderer::face_is_visible(&chunk, 0, 100, 8, Face::Left));
    assert!(ChunkRenderer::face_is_visible(&chunk, 15, 100, 8, Face::Right));
    assert!(ChunkRenderer::face_is_visible(&chunk, 8, 100, 0, Face::Front));
    assert!(ChunkRenderer::face_is_visible(&chunk, 8, 100, 15, Face::Back));
    assert!(ChunkRenderer::face_is_visible(&chunk, 8, 0, 8, Face::Bottom));
    assert!(ChunkRenderer::face_is_visible(&chunk, 8, 255, 8, Face::Top));
    assert!(!ChunkRenderer::face_is_visible(&chunk, 1, 100, 8, Face::Left));
    assert!(!ChunkRenderer::face_is_visible(&chunk, 14, 100, 8, Face::Right));
    assert!(!ChunkRenderer::face_is_visible(&chunk, 8, 100, 1, Face::Front));
    assert!(!ChunkRenderer::face_is_visible(&chunk, 8, 100, 14, Face::Back));
    assert!(!ChunkRenderer::face_is_visible(&chunk, 8, 1, 8, Face::Bottom));
    assert!(!ChunkRenderer::face_is_visible(&chunk, 8, 254, 8, Face::Top));
}

#[test]
fn enclosed_block_adds_nothing() {
    let mut chunk = Chunk::new(0, 0);
    for (x, y, z) in [(8, 8, 8), (7, 8, 8), (9, 8, 8), (8, 7, 8), (8, 9, 8), (8, 8, 7), (8, 8, 9)] {
        chunk.set_block_at(x, y, z, Block::Stone);
    }
    for face in ALL_FACES {
        assert!(!ChunkRenderer::face_is_visible(&chunk, 8, 8, 8, face));
    }
    let (vertices, normals) = ChunkRenderer::mesh_along(&chunk, &vec![(8, 8, 8)]);
    assert!(vertices.is_empty());
    assert!(normals.is_empty());
    // Each of the six blocks around it shows five faces.
    assert_eq!(face_count(&chunk), 30);
}

#[test]
fn full_layer_shows_its_surface() {
    let mut chunk = Chunk::new(0, 0);
    chunk.fill_layer(9, Block::Stone);
    // 256 faces above, 256 below, 16 along each of the four sides.
    assert_eq!(face_count(&chunk), 256 + 256 + 4 * 16);
}

#[test]
fn full_chunk_shows_boundary_faces_only() {
    let mut chunk = Chunk::new(0, 0);
    for y in 0..=255u8 {
        chunk.fill_layer(y, Block::Stone);
    }
    // 256 faces above, 256 below, 16 by 256 along each of the four sides.
    assert_eq!(face_count(&chunk), 2 * 256 + 4 * 16 * 256);
    let (vertices, _) = ChunkRenderer::generate_mesh(&chunk);
    assert_eq!(vertices.len(), 101_376);
    for vertex in vertices {
        let (x, y, z) = vertex.position;
        assert!(x == 0 || x == 16 || y == 0 || y == 256 || z == 0 || z == 16);
    }
}

#[test]
fn generated_terrain_shows_its_surface() {
    let mut world = World::new(String::new());
    let chunk = world.chunk_at(0, 0);
    // 23 layers: 256 faces above, 256 below, 16 by 23 along each side.
    assert_eq!(face_count(chunk), 2 * 256 + 4 * 16 * 23);
}

#[test]
fn mesh_along_visits_the_blocks_in_the_given_order() {
    let mut chunk = Chunk::new(0, 0);
    chunk.set_block_at(1, 1, 1, Block::Stone);
    chunk.set_block_at(10, 10, 10, Block::Stone);
    let (forwards, _) = ChunkRenderer::mesh_along(&chunk, &vec![(1, 1, 1), (10, 10, 10)]);
    let (backwards, _) = ChunkRenderer::mesh_along(&chunk, &vec![(10, 10, 10), (1, 1, 1)]);
    assert_eq!(forwards.len(), 72);
    assert_eq!(backwards.len(), 72);
    assert_eq!(forwards[..36], backwards[36..]);
    assert_eq!(forwards[36..], backwards[..36]);
    assert_eq!(forwards[0].position, (1, 2, 2));
    assert_eq!(backwards[0].position, (10, 11, 11));
}

#[test]
fn mesh_along_no_blocks_is_empty() {
    let mut chunk = Chunk::new(0, 0);
    chunk.set_block_at(1, 1, 1, Block::Stone);
    let (vertices, normals) = ChunkRenderer::mesh_along(&chunk, &Vec::new());
    assert!(vertices.is_empty());
    assert!(normals.is_empty());
}

#[test]
fn generate_mesh_visits_the_occupied_blocks() {
    let mut chunk = Chunk::new(0, 0);
    chunk.set_block_at(1, 1, 1, Block::Stone);
    chunk.set_block_at(2, 1, 1, Block::Dirt);
    chunk.set_block_at(9, 200, 4, Block::Grass);
    let (vertices, normals) = ChunkRenderer::generate_mesh(&chunk);
    let mut order = chunk.occupied();
    order.sort();
    let (sorted_vertices, sorted_normals) = ChunkRenderer::mesh_along(&chunk, &order);
    let mut got = positions(&vertices);
    let mut expected = positions(&sorted_vertices);
    got.sort();
    expected.sort();
    assert_eq!(got, expected);
    let mut got = directions(&normals);
    let mut expected = directions(&sorted_normals);
    got.sort();
    expected.sort();
    assert_eq!(got, expected);
    assert_eq!(vertices.len(), 6 * 16);
}

#[test]
fn removing_a_block_uncovers_its_neighbours() {
    let mut chunk = Chunk::new(0, 0);
    chunk.set_block_at(3, 4, 5, Block::Stone);
    chunk.set_block_at(4, 4, 5, Block::Stone);
    assert_eq!(face_count(&chunk), 10);
    chunk.set_block_at(4, 4, 5, Block::Air);
    assert_eq!(face_count(&chunk), 6);
}

#[test]
fn model_offset_is_sixteen_blocks_a_chunk() {
    assert_eq!(ChunkRenderer::model_offset(&Chunk::new(0, 0)), (0, 0));
    assert_eq!(ChunkRenderer::model_offset(&Chunk::new(3, 5)), (48, 80));
    assert_eq!(
        ChunkRenderer::model_offset(&Chunk::new(u32::MAX, 1)),
        (68_719_476_720, 16)
    );
}
