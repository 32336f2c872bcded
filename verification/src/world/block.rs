//! The block registry: the closed set of block kinds and their static
//! properties.

use vstd::prelude::*;

verus! {

/// A kind of block. `Air` stands for the absence of a block; every other
/// kind is solid.
#[derive(Copy, Clone, PartialEq, Eq, Structural, Debug, Hash)]
pub enum Block {
    Air,
    Stone,
    Grass,
    Dirt,
    Bedrock,
}

/// The static properties registered for one kind of block.
#[derive(Copy, Clone, Debug)]
pub struct BlockInfo {
    pub namespace: &'static str,
    pub name: &'static str,
    pub is_solid: bool,
}

impl Block {
    /// The integer tag of a block kind.
    pub open spec fn spec_id(&self) -> u8 {
        match *self {
            Block::Air => 0,
            Block::Stone => 1,
            Block::Grass => 2,
            Block::Dirt => 3,
            Block::Bedrock => 7,
        }
    }

    /// The registered name of a block kind.
    pub open spec fn spec_name(&self) -> Seq<char> {
        match *self {
            Block::Air => "air"@,
            Block::Stone => "stone"@,
            Block::Grass => "grass"@,
            Block::Dirt => "dirt"@,
            Block::Bedrock => "bedrock"@,
        }
    }

    /// Solidity is a property of the kind alone: everything but air is solid.
    pub open spec fn spec_is_solid(&self) -> bool {
        *self != Block::Air
    }

    /// The integer tag of this block kind.
    pub fn id(&self) -> (id: u8)
        ensures
            id == self.spec_id(),
    {
        match *self {
            Block::Air => 0,
            Block::Stone => 1,
            Block::Grass => 2,
            Block::Dirt => 3,
            Block::Bedrock => 7,
        }
    }

    /// The registry entry of this block kind.
    pub fn info(&self) -> (info: BlockInfo)
        ensures
            info.namespace@ == "default"@,
            info.name@ == self.spec_name(),
            info.is_solid == self.spec_is_solid(),
    {
        match *self {
            Block::Air => BlockInfo::with_name_nonsolid("air"),
            Block::Stone => BlockInfo::with_name("stone"),
            Block::Grass => BlockInfo::with_name("grass"),
            Block::Dirt => BlockInfo::with_name("dirt"),
            Block::Bedrock => BlockInfo::with_name("bedrock"),
        }
    }

    /// Whether this block kind hides the faces of its neighbours.
    #[verifier::when_used_as_spec(spec_is_solid)]
    pub fn is_solid(&self) -> (solid: bool)
        ensures
            solid == self.spec_is_solid(),
    {
        self.info().is_solid
    }
}

impl BlockInfo {
    /// A solid block kind of the default namespace.
    pub fn with_name(name: &'static str) -> (info: BlockInfo)
        ensures
            info.namespace@ == "default"@,
            info.name == name,
            info.is_solid,
    {
        BlockInfo { namespace: "default", name: name, is_solid: true }
    }

    /// A non-solid block kind of the default namespace.
    pub fn with_name_nonsolid(name: &'static str) -> (info: BlockInfo)
        ensures
            info.namespace@ == "default"@,
            info.name == name,
            !info.is_solid,
    {
        let mut blockinfo = BlockInfo::with_name(name);
        blockinfo.is_solid = false;
        blockinfo
    }
}

} // verus!
