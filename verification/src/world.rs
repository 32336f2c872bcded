//! The block world: chunks of blocks and the world that holds them.

use std::collections::{BTreeMap, HashMap};
use vstd::pervasive::runtime_assert;
use vstd::prelude::*;
use vstd::std_specs::iter::IteratorSpec;

pub mod block;

use crate::world::block::Block;

verus! {

/// The greatest local x or z coordinate inside a chunk.
pub const CHUNK_EDGE: u8 = 15;

/// A local coordinate `(x, y, z)` of a chunk: x and z run from 0 to 15
/// across the footprint, y from 0 to 255 upwards.
pub type Coord = (u8, u8, u8);

/// The blocks of a chunk as a mathematical map: a coordinate that has no
/// entry holds air.
pub type Blocks = Map<Coord, Block>;

/// The block that `blocks` holds at a local coordinate.
pub open spec fn block_in(blocks: Blocks, c: Coord) -> Block {
    if blocks.contains_key(c) {
        blocks[c]
    } else {
        Block::Air
    }
}

/// What a chunk's storage always satisfies: it is sparse (air is never
/// stored) and stays inside the chunk's 16 by 16 footprint.
pub open spec fn well_formed(blocks: Blocks) -> bool {
    forall|c: Coord| #[trigger]
        blocks.contains_key(c) ==> c.0 <= CHUNK_EDGE && c.2 <= CHUNK_EDGE && blocks[c]
            != Block::Air
}

/// `blocks` after the block at `c` is set: air removes the entry, any other
/// block takes its place.
pub open spec fn with_block(blocks: Blocks, c: Coord, block: Block) -> Blocks {
    if block == Block::Air {
        blocks.remove(c)
    } else {
        blocks.insert(c, block)
    }
}

/// Whether `c` lies in the horizontal layer at height `y` of a chunk's
/// footprint.
pub open spec fn in_layer(c: Coord, y: u8) -> bool {
    c.1 == y && c.0 <= CHUNK_EDGE && c.2 <= CHUNK_EDGE
}

/// `blocks` after every coordinate of the layer at height `y` is set to
/// `block`.
pub open spec fn with_layer(blocks: Blocks, y: u8, block: Block) -> Blocks {
    Map::new(
        |c: Coord|
            if in_layer(c, y) {
                block != Block::Air
            } else {
                blocks.contains_key(c)
            },
        |c: Coord|
            if in_layer(c, y) {
                block
            } else {
                blocks[c]
            },
    )
}

/// `blocks` after the first `n` coordinates of the layer at height `y`,
/// counted along z within x, are set to `block`.
spec fn with_layer_prefix(blocks: Blocks, y: u8, block: Block, n: int) -> Blocks {
    Map::new(
        |c: Coord|
            if in_layer(c, y) && 16 * c.0 + c.2 < n {
                block != Block::Air
            } else {
                blocks.contains_key(c)
            },
        |c: Coord|
            if in_layer(c, y) && 16 * c.0 + c.2 < n {
                block
            } else {
                blocks[c]
            },
    )
}

/// Whether `order` visits every coordinate at which `blocks` holds a block,
/// each exactly once.
pub open spec fn is_walk_of(order: Seq<Coord>, blocks: Blocks) -> bool {
    order.no_duplicates() && order.to_set() == blocks.dom()
}

/// The storage key of a local coordinate.
spec fn key_of(c: Coord) -> u32 {
    (c.0 + 256 * c.1 + 65536 * c.2) as u32
}

/// The local coordinate that a storage key stands for.
spec fn coord_of(k: u32) -> Coord {
    ((k % 256) as u8, ((k / 256) % 256) as u8, ((k / 65536) % 256) as u8)
}

proof fn lemma_key_round_trip(c: Coord)
    ensures
        coord_of(key_of(c)) == c,
        key_of(c) < 0x100_0000,
{
    let (x, y, z) = (c.0 as u32, c.1 as u32, c.2 as u32);
    let k = key_of(c);
    assert(k == x + 256 * y + 65536 * z);
    assert(k < 0x100_0000 && k % 256 == x && (k / 256) % 256 == y && (k / 65536) % 256 == z)
        by (bit_vector)
        requires
            x < 256,
            y < 256,
            z < 256,
            k == x + 256 * y + 65536 * z,
    ;
}

proof fn lemma_coord_round_trip(k: u32)
    requires
        k < 0x100_0000,
    ensures
        key_of(coord_of(k)) == k,
{
    let (x, y, z) = (k % 256, (k / 256) % 256, (k / 65536) % 256);
    assert(x < 256 && y < 256 && z < 256 && k == x + 256 * y + 65536 * z) by (bit_vector)
        requires
            k < 0x100_0000,
            x == k % 256,
            y == (k / 256) % 256,
            z == (k / 65536) % 256,
    ;
}

/// A column of the world, 16 by 16 blocks wide and 256 blocks high, that
/// stores only the blocks that are not air.
pub struct Chunk {
    blocks: HashMap<u32, Block>,
    coordinates: (u32, u32),
}

impl View for Chunk {
    type V = Blocks;

    closed spec fn view(&self) -> Blocks {
        Map::new(
            |c: Coord| self.blocks@.contains_key(key_of(c)),
            |c: Coord| self.blocks@[key_of(c)],
        )
    }
}

impl Chunk {
    /// The invariant of the representation: every stored key stands for a
    /// coordinate inside the footprint, and air is never stored.
    #[verifier::type_invariant]
    spec fn inv(&self) -> bool {
        forall|k: u32| #[trigger]
            self.blocks@.contains_key(k) ==> {
                &&& k < 0x100_0000
                &&& coord_of(k).0 <= CHUNK_EDGE
                &&& coord_of(k).2 <= CHUNK_EDGE
                &&& self.blocks@[k] != Block::Air
            }
    }

    /// The blocks of a chunk that satisfies the invariant are sparse and
    /// inside its footprint.
    proof fn lemma_well_formed(&self)
        requires
            self.inv(),
        ensures
            well_formed(self@),
    {
        assert forall|c: Coord| #[trigger] self@.contains_key(c) implies c.0 <= CHUNK_EDGE
            && c.2 <= CHUNK_EDGE && self@[c] != Block::Air by {
            lemma_key_round_trip(c);
        }
    }

    /// The chunk's position in the world's grid of chunks.
    pub closed spec fn position(&self) -> (u32, u32) {
        self.coordinates
    }

    /// The block at a local coordinate.
    pub open spec fn spec_block_at(&self, x: u8, y: u8, z: u8) -> Block {
        block_in(self@, (x, y, z))
    }

    /// An empty chunk at position `(x, z)` of the world's grid.
    pub fn new(x: u32, z: u32) -> (chunk: Chunk)
        ensures
            chunk@ == Blocks::empty(),
            chunk.position() == (x, z),
    {
        let chunk = Chunk { blocks: HashMap::new(), coordinates: (x, z) };
        assert(chunk@ =~= Blocks::empty());
        chunk
    }

    /// The chunk's position in the world's grid of chunks.
    pub fn coordinates(&self) -> (position: (u32, u32))
        ensures
            position == self.position(),
    {
        self.coordinates
    }

    /// The block at a local coordinate; air where none was set.
    #[verifier::when_used_as_spec(spec_block_at)]
    pub fn block_at(&self, x: u8, y: u8, z: u8) -> (block: Block)
        ensures
            block == self.spec_block_at(x, y, z),
    {
        let key: u32 = x as u32 + 256 * (y as u32) + 65536 * (z as u32);
        match self.blocks.get(&key) {
            Some(block) => *block,
            None => Block::Air,
        }
    }

    /// The coordinates that hold a block, each once, in the order in which
    /// the storage hands them out. That order is not fixed: it may differ
    /// from one call to the next.
    pub fn occupied(&self) -> (coords: Vec<Coord>)
        ensures
            is_walk_of(coords@, self@),
            well_formed(self@),
    {
        proof {
            use_type_invariant(self);
            self.lemma_well_formed();
        }
        let mut coords: Vec<Coord> = Vec::new();
        let ghost keys = self.blocks.keys().remaining().unref();
        for key in it: self.blocks.keys()
            invariant
                it.seq().unref() == keys,
                coords@.len() == it.index(),
                forall|i: int| 0 <= i < it.index() ==> coords@[i] == coord_of(keys[i]),
        {
            let k: u32 = *key;
            coords.push(((k % 256) as u8, ((k / 256) % 256) as u8, ((k / 65536) % 256) as u8));
        }
        proof {
            assert(keys.to_set() == self.blocks@.dom());
            assert(keys.no_duplicates());
            assert forall|i: int| 0 <= i < keys.len() implies key_of(coords@[i]) == keys[i]
                && self.blocks@.contains_key(keys[i]) by {
                assert(keys.to_set().contains(keys[i]));
                lemma_coord_round_trip(keys[i]);
            }
            assert forall|i: int, j: int|
                0 <= i < coords@.len() && 0 <= j < coords@.len() && i != j implies coords@[i]
                != coords@[j] by {
                assert(keys[i] != keys[j]);
            }
            assert forall|c: Coord| coords@.to_set().contains(c) <==> self@.dom().contains(
                c,
            ) by {
                if coords@.to_set().contains(c) {
                    let i = choose|i: int| 0 <= i < coords@.len() && coords@[i] == c;
                    assert(key_of(c) == keys[i]);
                }
                if self@.dom().contains(c) {
                    assert(keys.to_set().contains(key_of(c)));
                    let i = choose|i: int| 0 <= i < keys.len() && keys[i] == key_of(c);
                    lemma_key_round_trip(c);
                    assert(coords@[i] == c);
                }
            }
            assert(coords@.to_set() =~= self@.dom());
        }
        coords
    }

    /// Sets the block at a local coordinate inside the chunk's footprint.
    /// Setting air clears the coordinate.
    ///
    /// A coordinate outside the footprint is a mistake of the caller. Code
    /// that Verus checks cannot make it; for code that it does not check the
    /// call stops the program instead of storing the block.
    pub fn set_block_at(&mut self, x: u8, y: u8, z: u8, block: Block)
        requires
            x <= CHUNK_EDGE,
            z <= CHUNK_EDGE,
        ensures
            final(self)@ == with_block(old(self)@, (x, y, z), block),
            final(self).spec_block_at(x, y, z) == block,
            final(self).position() == old(self).position(),
            well_formed(final(self)@),
    {
        proof {
            use_type_invariant(&*self);
            self.lemma_well_formed();
            lemma_key_round_trip((x, y, z));
        }
        runtime_assert(x <= CHUNK_EDGE && z <= CHUNK_EDGE);
        let key: u32 = x as u32 + 256 * (y as u32) + 65536 * (z as u32);
        let mut blocks = HashMap::new();
        std::mem::swap(&mut blocks, &mut self.blocks);
        match block {
            Block::Air => {
                blocks.remove(&key);
            },
            _ => {
                blocks.insert(key, block);
            },
        }
        self.blocks = blocks;
        proof {
            assert forall|c: Coord| key_of(c) == key implies c == (x, y, z) by {
                lemma_key_round_trip(c);
            }
            assert(self@ =~= with_block(old(self)@, (x, y, z), block));
        }
    }

    /// Sets all 256 coordinates of the layer at height `y` to `block`.
    pub fn fill_layer(&mut self, y: u8, block: Block)
        ensures
            final(self)@ == with_layer(old(self)@, y, block),
            final(self).position() == old(self).position(),
            well_formed(final(self)@),
    {
        proof {
            use_type_invariant(&*self);
            self.lemma_well_formed();
        }
        assert(self@ =~= with_layer_prefix(old(self)@, y, block, 0));
        for x in 0..16u8
            invariant
                self.position() == old(self).position(),
                self@ == with_layer_prefix(old(self)@, y, block, 16 * x),
        {
            for z in 0..16u8
                invariant
                    x < 16,
                    self.position() == old(self).position(),
                    self@ == with_layer_prefix(old(self)@, y, block, 16 * x + z),
            {
                self.set_block_at(x, y, z, block);
                assert(self@ =~= with_layer_prefix(old(self)@, y, block, 16 * x + z + 1));
            }
        }
        assert(self@ =~= with_layer(old(self)@, y, block));
    }
}

/// The chunks of a world as a mathematical map from grid position to the
/// blocks of the chunk there.
pub type Chunks = Map<(u32, u32), Blocks>;

/// The block that terrain generation puts at height `y`: bedrock below
/// stone below dirt below one layer of grass, and air above.
pub open spec fn terrain_block(y: u8) -> Block {
    if y < 3 {
        Block::Bedrock
    } else if y < 20 {
        Block::Stone
    } else if y < 22 {
        Block::Dirt
    } else if y == 22 {
        Block::Grass
    } else {
        Block::Air
    }
}

/// The blocks of a freshly generated chunk. They are the same at every
/// position of the grid.
pub open spec fn terrain() -> Blocks {
    Map::new(
        |c: Coord| c.0 <= CHUNK_EDGE && c.2 <= CHUNK_EDGE && c.1 <= 22,
        |c: Coord| terrain_block(c.1),
    )
}

/// The blocks of a chunk under generation once the layers below `height`
/// are filled.
spec fn terrain_below(height: int) -> Blocks {
    Map::new(
        |c: Coord| c.0 <= CHUNK_EDGE && c.2 <= CHUNK_EDGE && c.1 < height && c.1 <= 22,
        |c: Coord| terrain_block(c.1),
    )
}

/// `chunks` once the chunk at `(x, z)` is loaded: a chunk that is there
/// stays as it is, a missing one is generated.
pub open spec fn loaded(chunks: Chunks, x: u32, z: u32) -> Chunks {
    if chunks.contains_key((x, z)) {
        chunks
    } else {
        chunks.insert((x, z), terrain())
    }
}

/// Loading a chunk a second time changes nothing: the chunk that the first
/// load found or generated is still there, with the same blocks.
pub proof fn lemma_load_is_idempotent(chunks: Chunks, x: u32, z: u32)
    ensures
        loaded(chunks, x, z).contains_key((x, z)),
        loaded(loaded(chunks, x, z), x, z) == loaded(chunks, x, z),
        loaded(loaded(chunks, x, z), x, z)[(x, z)] == loaded(chunks, x, z)[(x, z)],
{
}

/// Loading never generates a chunk anew: every chunk that the world holds
/// stays as it is, whichever chunk is loaded.
pub proof fn lemma_load_keeps_chunks(chunks: Chunks, x: u32, z: u32, at: (u32, u32))
    requires
        chunks.contains_key(at),
    ensures
        loaded(chunks, x, z).contains_key(at),
        loaded(chunks, x, z)[at] == chunks[at],
{
}

/// The playable area: a sparse grid of chunks, each generated when it is
/// first asked for.
pub struct World {
    chunks: BTreeMap<(u32, u32), Chunk>,
    seed: String,
}

impl View for World {
    type V = Chunks;

    closed spec fn view(&self) -> Chunks {
        self.chunks@.map_values(|chunk: Chunk| chunk@)
    }
}

impl World {
    /// The invariant of the representation: every chunk knows the position
    /// at which the world holds it.
    #[verifier::type_invariant]
    spec fn inv(&self) -> bool {
        forall|k: (u32, u32)| #[trigger]
            self.chunks@.contains_key(k) ==> self.chunks@[k].position() == k
    }

    /// The seed that the world was made with.
    pub closed spec fn seed(&self) -> Seq<char> {
        self.seed@
    }

    /// A world without chunks. Terrain generation does not consult the seed.
    pub fn new(seed: String) -> (world: World)
        ensures
            world@ == Chunks::empty(),
            world.seed() == seed@,
    {
        let world = World { chunks: BTreeMap::new(), seed };
        assert(world@ =~= Chunks::empty());
        world
    }

    /// The chunk at position `(x, z)` of the grid, generated on first
    /// access.
    pub fn chunk_at(&mut self, x: u32, z: u32) -> (chunk: &Chunk)
        ensures
            final(self)@ == loaded(old(self)@, x, z),
            final(self).seed() == old(self).seed(),
            chunk@ == final(self)@[(x, z)],
            chunk.position() == (x, z),
            well_formed(chunk@),
    {
        if !self.chunks.contains_key(&(x, z)) {
            self.load_chunk_at(x, z);
            assert(self@.contains_key((x, z)));
        }
        proof {
            use_type_invariant(&*self);
        }
        assert(self.chunks@.contains_key((x, z)));
        assert(self@ =~= loaded(old(self)@, x, z));
        let chunk = self.chunks.get(&(x, z)).unwrap();
        proof {
            use_type_invariant(chunk);
            chunk.lemma_well_formed();
        }
        chunk
    }

    /// Generates the chunk at `(x, z)` and puts it into the grid, in place of
    /// any chunk that was there.
    pub fn load_chunk_at(&mut self, x: u32, z: u32)
        ensures
            final(self)@ == old(self)@.insert((x, z), terrain()),
            final(self).seed() == old(self).seed(),
    {
        proof {
            use_type_invariant(&*self);
        }
        let chunk = self.generate_chunk_at(x, z);
        let mut chunks = BTreeMap::new();
        std::mem::swap(&mut chunks, &mut self.chunks);
        chunks.insert((x, z), chunk);
        self.chunks = chunks;
        assert(self@ =~= old(self)@.insert((x, z), terrain()));
    }

    /// A new chunk for position `(x, z)`, filled with terrain.
    pub fn generate_chunk_at(&self, x: u32, z: u32) -> (chunk: Chunk)
        ensures
            chunk@ == terrain(),
            chunk.position() == (x, z),
    {
        let mut chunk = Chunk::new(x, z);
        assert(chunk@ =~= terrain_below(0));
        for y in 0..3u8
            invariant
                chunk.position() == (x, z),
                chunk@ == terrain_below(y as int),
        {
            chunk.fill_layer(y, Block::Bedrock);
            assert(chunk@ =~= terrain_below(y + 1));
        }
        for y in 3..20u8
            invariant
                chunk.position() == (x, z),
                chunk@ == terrain_below(y as int),
        {
            chunk.fill_layer(y, Block::Stone);
            assert(chunk@ =~= terrain_below(y + 1));
        }
        for y in 20..22u8
            invariant
                chunk.position() == (x, z),
                chunk@ == terrain_below(y as int),
        {
            chunk.fill_layer(y, Block::Dirt);
            assert(chunk@ =~= terrain_below(y + 1));
        }
        chunk.fill_layer(22, Block::Grass);
        assert(chunk@ =~= terrain());
        chunk
    }
}

} // verus!
