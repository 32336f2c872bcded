use voxel_game::world::block::{Block, BlockInfo};

#[test]
fn air_is_not_solid() {
    assert!(!Block::Air.is_solid());
    assert!(!Block::Air.info().is_solid);
}

#[test]
fn every_other_block_is_solid() {
    for block in [Block::Stone, Block::Grass, Block::Dirt, Block::Bedrock] {
        assert!(block.is_solid());
        assert!(block.info().is_solid);
    }
}

#[test]
fn blocks_are_registered_under_their_names() {
    assert_eq!(Block::Air.info().name, "air");
    assert_eq!(Block::Stone.info().name, "stone");
    assert_eq!(Block::Grass.info().name, "grass");
    assert_eq!(Block::Dirt.info().name, "dirt");
    assert_eq!(Block::Bedrock.info().name, "bedrock");
}

#[test]
fn blocks_live_in_the_default_namespace() {
    for block in [Block::Air, Block::Stone, Block::Grass, Block::Dirt, Block::Bedrock] {
        assert_eq!(block.info().namespace, "default");
    }
}

#[test]
fn blocks_keep_their_tags() {
    assert_eq!(Block::Air.id(), 0);
    assert_eq!(Block::Stone.id(), 1);
    assert_eq!(Block::Grass.id(), 2);
    assert_eq!(Block::Dirt.id(), 3);
    assert_eq!(Block::Bedrock.id(), 7);
}

#[test]
fn with_name_makes_a_solid_entry() {
    let info = BlockInfo::with_name("sand");
    assert_eq!(info.namespace, "default");
    assert_eq!(info.name, "sand");
    assert!(info.is_solid);
}

#[test]
fn with_name_nonsolid_makes_a_nonsolid_entry() {
    let info = BlockInfo::with_name_nonsolid("water");
    assert_eq!(info.namespace, "default");
    assert_eq!(info.name, "water");
    assert!(!info.is_solid);
}
