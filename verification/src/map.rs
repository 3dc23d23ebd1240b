//! The world map: a grid of tiles at the standard ground layer.
//!
//! The map is a pure collaborator of the protocol core: sessions only
//! ask for the ordered tile objects at a position.  Coordinates outside
//! the generated area read as open water at the ground layer.

use vstd::prelude::*;
use crate::config::MapConfig;
use crate::constants::Fluid;
use crate::position::Position;

verus! {

pub const MAP_WIDTH: u16 = 100;

pub const MAP_HEIGHT: u16 = 100;

/// The ground layer, the only layer the generators populate.
pub const GROUND_LAYER: u8 = 7;

#[derive(Debug, Copy, Clone, Eq, PartialEq, Structural)]
pub enum MapType {
    FixedTile,
    Checkerboard,
    RookgaardTemple,
    File,
}

/// Why a map could not be built from its configuration.
#[derive(Debug, Copy, Clone, Eq, PartialEq, Structural)]
pub enum MapError {
    /// A fixed-tile map was requested without a tile id.
    MissingTile,
    /// A file map was requested without a file name.
    MissingFile,
    /// Maps from files are not yet supported.
    FileMapsUnsupported,
}

/// One object lying on a tile, in stacking order.
#[derive(Debug, Copy, Clone, Eq, PartialEq, Structural)]
pub enum TileObject {
    Other(u16),
    FluidContainer(u16, Fluid),
    LightSource(u16, u8),
    Stackable(u16, u8),
}

#[derive(Debug, Copy, Clone, Eq, PartialEq, Structural)]
pub struct MapMetadata {
    pub width: u16,
    pub height: u16,
    pub offset_x: u16,
    pub offset_y: u16,
    pub respawn_location: Position,
}

impl MapMetadata {
    pub fn new(width: u16, height: u16, offset_x: u16, offset_y: u16, respawn_location: Position)
        -> (r: MapMetadata)
        ensures
            r == (MapMetadata { width, height, offset_x, offset_y, respawn_location }),
    {
        MapMetadata { width, height, offset_x, offset_y, respawn_location }
    }
}

/// The objects on one tile, in insertion order.
pub struct Tile(pub Vec<TileObject>);

impl Tile {
    pub fn empty() -> (r: Tile)
        ensures
            r.0@ == Seq::<TileObject>::empty(),
    {
        Tile(Vec::new())
    }

    pub fn with_object(tile_object: TileObject) -> (r: Tile)
        ensures
            r.0@ == seq![tile_object],
    {
        let mut v: Vec<TileObject> = Vec::new();
        v.push(tile_object);
        assert(v@ =~= seq![tile_object]);
        Tile(v)
    }

    pub fn clear(&mut self)
        ensures
            final(self).0@ == Seq::<TileObject>::empty(),
    {
        self.0.clear();
    }

    pub fn push(&mut self, object: TileObject)
        ensures
            final(self).0@ == old(self).0@.push(object),
    {
        self.0.push(object);
    }
}

/// The generated world map: `width * height` tiles at the ground layer,
/// stored row-major by x then y.
pub struct WorldMap {
    pub metadata: MapMetadata,
    pub tiles: Vec<Tile>,
}

/// The checkerboard tile for an absolute coordinate: one kind on even
/// parity, the other on odd.
pub open spec fn spec_checker_tile(x: int, y: int) -> u16 {
    if (x + y) % 2 == 0 {
        0x010c
    } else {
        0x0113
    }
}

proof fn lemma_grid_index_bounds(xi: int, yi: int, w: int, h: int)
    by (nonlinear_arith)
    requires
        0 <= xi < w,
        0 <= yi < h,
    ensures
        0 <= xi * h + yi < w * h,
{
}

proof fn lemma_grid_index_injective(x1: int, y1: int, x2: int, y2: int, h: int)
    by (nonlinear_arith)
    requires
        0 <= y1 < h,
        0 <= y2 < h,
        x1 * h + y1 == x2 * h + y2,
    ensures
        x1 == x2 && y1 == y2,
{
}

impl WorldMap {
    /// The grid holds exactly one tile per coordinate pair.
    pub open spec fn wf(self) -> bool {
        self.tiles@.len() == self.metadata.width * self.metadata.height
    }

    /// Whether an (x, y) coordinate lies in the generated area.
    pub open spec fn in_bounds(self, x: int, y: int) -> bool {
        self.metadata.offset_x <= x < self.metadata.offset_x + self.metadata.width
            && self.metadata.offset_y <= y < self.metadata.offset_y + self.metadata.height
    }

    pub open spec fn tile_index(self, x: int, y: int) -> int {
        (x - self.metadata.offset_x) * self.metadata.height + (y - self.metadata.offset_y)
    }

    /// The objects on the tile at an in-bounds coordinate.
    pub open spec fn tile_at(self, x: int, y: int) -> Seq<TileObject> {
        self.tiles@[self.tile_index(x, y)].0@
    }

    proof fn lemma_index_ok(self, x: int, y: int)
        requires
            self.in_bounds(x, y),
        ensures
            0 <= self.tile_index(x, y) < self.metadata.width * self.metadata.height,
    {
        lemma_grid_index_bounds(
            x - self.metadata.offset_x,
            y - self.metadata.offset_y,
            self.metadata.width as int,
            self.metadata.height as int,
        );
    }

    /// A map whose every tile holds the same single object.
    pub fn fixed_tile(
        tile_id: u16,
        width: u16,
        height: u16,
        offset_x: u16,
        offset_y: u16,
        respawn_location: Position,
    ) -> (m: WorldMap)
        requires
            width * height <= usize::MAX,
        ensures
            m.wf(),
            m.metadata == (MapMetadata { width, height, offset_x, offset_y, respawn_location }),
            forall|x: int, y: int|
                m.in_bounds(x, y) ==> m.tile_at(x, y) =~= seq![TileObject::Other(tile_id)],
    {
        let mut tiles: Vec<Tile> = Vec::new();
        let mut x: u16 = 0;
        while x < width
            invariant
                x <= width,
                width * height <= usize::MAX,
                tiles@.len() == x * height,
                forall|k: int| 0 <= k < tiles@.len() ==> tiles@[k].0@ =~= seq![
                    TileObject::Other(tile_id),
                ],
            decreases width - x,
        {
            let mut y: u16 = 0;
            proof {
                lemma_mul_bound(x as int, width as int, height as int);
            }
            while y < height
                invariant
                    y <= height,
                    x < width,
                    width * height <= usize::MAX,
                    (x + 1) * height <= width * height,
                    tiles@.len() == x * height + y,
                    forall|k: int| 0 <= k < tiles@.len() ==> tiles@[k].0@ =~= seq![
                        TileObject::Other(tile_id),
                    ],
                decreases height - y,
            {
                assert(x * height + y < (x + 1) * height) by (nonlinear_arith)
                    requires
                        y < height,
                ;
                tiles.push(Tile::with_object(TileObject::Other(tile_id)));
                y = y + 1;
            }
            assert(x * height + height == (x + 1) * height) by (nonlinear_arith);
            x = x + 1;
        }
        let m = WorldMap {
            metadata: MapMetadata::new(width, height, offset_x, offset_y, respawn_location),
            tiles,
        };
        proof {
            assert forall|x0: int, y0: int| m.in_bounds(x0, y0) implies m.tile_at(x0, y0) =~= seq![
                TileObject::Other(tile_id),
            ] by {
                m.lemma_index_ok(x0, y0);
            }
        }
        m
    }

    /// A map of two tile kinds alternating by coordinate parity.
    pub fn checkerboard_pattern(
        width: u16,
        height: u16,
        offset_x: u16,
        offset_y: u16,
        respawn_location: Position,
    ) -> (m: WorldMap)
        requires
            width * height <= usize::MAX,
            offset_x + width <= u16::MAX,
            offset_y + height <= u16::MAX,
        ensures
            m.wf(),
            m.metadata == (MapMetadata { width, height, offset_x, offset_y, respawn_location }),
            forall|x: int, y: int|
                m.in_bounds(x, y) ==> m.tile_at(x, y) =~= seq![
                    TileObject::Other(spec_checker_tile(x, y)),
                ],
    {
        let mut tiles: Vec<Tile> = Vec::new();
        let mut x: u16 = 0;
        while x < width
            invariant
                x <= width,
                width * height <= usize::MAX,
                offset_x + width <= u16::MAX,
                offset_y + height <= u16::MAX,
                tiles@.len() == x * height,
                forall|k: int|
                    0 <= k < tiles@.len() ==> (#[trigger] tiles@[k]).0@ =~= seq![
                        TileObject::Other(
                            spec_checker_tile(k / (height as int) + offset_x, k % (height as int) + offset_y),
                        ),
                    ],
            decreases width - x,
        {
            let mut y: u16 = 0;
            proof {
                lemma_mul_bound(x as int, width as int, height as int);
            }
            while y < height
                invariant
                    y <= height,
                    x < width,
                    width * height <= usize::MAX,
                    offset_x + width <= u16::MAX,
                    offset_y + height <= u16::MAX,
                    (x + 1) * height <= width * height,
                    tiles@.len() == x * height + y,
                    forall|k: int|
                        0 <= k < tiles@.len() ==> (#[trigger] tiles@[k]).0@ =~= seq![
                            TileObject::Other(
                                spec_checker_tile(k / (height as int) + offset_x, k % (height as int) + offset_y),
                            ),
                        ],
                decreases height - y,
            {
                assert(x * height + y < (x + 1) * height) by (nonlinear_arith)
                    requires
                        y < height,
                ;
                let ax = x + offset_x;
                let ay = y + offset_y;
                let tile_id: u16 = if (ax as u32 + ay as u32) % 2 == 0 {
                    0x010c
                } else {
                    0x0113
                };
                proof {
                    assert((x * height + y) / (height as int) == x && (x * height + y) % (
                    height as int) == y) by (nonlinear_arith)
                        requires
                            0 <= y < height,
                            0 <= x,
                    ;
                    assert(tile_id == spec_checker_tile(ax as int, ay as int));
                }
                tiles.push(Tile::with_object(TileObject::Other(tile_id)));
                y = y + 1;
            }
            assert(x * height + height == (x + 1) * height) by (nonlinear_arith);
            x = x + 1;
        }
        let m = WorldMap {
            metadata: MapMetadata::new(width, height, offset_x, offset_y, respawn_location),
            tiles,
        };
        proof {
            assert forall|x0: int, y0: int| m.in_bounds(x0, y0) implies m.tile_at(x0, y0) =~= seq![
                TileObject::Other(spec_checker_tile(x0, y0)),
            ] by {
                m.lemma_index_ok(x0, y0);
                let xi = x0 - offset_x;
                let yi = y0 - offset_y;
                let k = xi * height + yi;
                assert(k / (height as int) == xi && k % (height as int) == yi)
                    by (nonlinear_arith)
                    requires
                        0 <= yi < height,
                        0 <= xi,
                        k == xi * height + yi,
                ;
            }
        }
        m
    }

    /// Empties the tile at an in-bounds ground-layer position.
    pub fn clear_tile(&mut self, position: Position)
        requires
            old(self).wf(),
            old(self).in_bounds(position.x as int, position.y as int),
            position.z == GROUND_LAYER,
        ensures
            final(self).wf(),
            final(self).metadata == old(self).metadata,
            final(self).tile_at(position.x as int, position.y as int) == Seq::<
                TileObject,
            >::empty(),
            forall|x: int, y: int|
                old(self).in_bounds(x, y) && !(x == position.x && y == position.y) ==> final(self).tile_at(x, y) == old(self).tile_at(x, y),
    {
        proof {
            old(self).lemma_index_ok(position.x as int, position.y as int);
        }
        let n = self.tiles.len();
        assert(self.tile_index(position.x as int, position.y as int) < n);
        let idx = (position.x - self.metadata.offset_x) as usize * self.metadata.height as usize + (
        position.y - self.metadata.offset_y) as usize;
        let mut tile = Tile::empty();
        self.tiles.set(idx, tile);
        proof {
            assert forall|x: int, y: int|
                old(self).in_bounds(x, y) && !(x == position.x && y == position.y) implies final(self).tile_at(x, y) == old(self).tile_at(x, y) by {
                old(self).lemma_index_ok(x, y);
                if self.tile_index(x, y) == idx {
                    lemma_grid_index_injective(
                        x - self.metadata.offset_x,
                        y - self.metadata.offset_y,
                        position.x - self.metadata.offset_x,
                        position.y - self.metadata.offset_y,
                        self.metadata.height as int,
                    );
                }
            }
        }
    }

    /// Appends an object to the tile at an in-bounds ground-layer
    /// position.
    pub fn push_object(&mut self, position: Position, object: TileObject)
        requires
            old(self).wf(),
            old(self).in_bounds(position.x as int, position.y as int),
            position.z == GROUND_LAYER,
        ensures
            final(self).wf(),
            final(self).metadata == old(self).metadata,
            final(self).tile_at(position.x as int, position.y as int) == old(self).tile_at(
                position.x as int,
                position.y as int,
            ).push(object),
            forall|x: int, y: int|
                old(self).in_bounds(x, y) && !(x == position.x && y == position.y) ==> final(self).tile_at(x, y) == old(self).tile_at(x, y),
    {
        proof {
            old(self).lemma_index_ok(position.x as int, position.y as int);
        }
        let total = self.tiles.len();
        assert(self.tile_index(position.x as int, position.y as int) < total);
        let idx = (position.x - self.metadata.offset_x) as usize * self.metadata.height as usize + (
        position.y - self.metadata.offset_y) as usize;
        let mut objects = Vec::new();
        let mut i: usize = 0;
        let n = self.tiles[idx].0.len();
        while i < n
            invariant
                0 <= idx < self.tiles@.len(),
                n == self.tiles@[idx as int].0@.len(),
                i <= n,
                objects@ == self.tiles@[idx as int].0@.take(i as int),
            decreases n - i,
        {
            objects.push(self.tiles[idx].0[i]);
            assert(objects@ =~= self.tiles@[idx as int].0@.take(i + 1));
            i = i + 1;
        }
        assert(objects@ =~= self.tiles@[idx as int].0@);
        objects.push(object);
        self.tiles.set(idx, Tile(objects));
        proof {
            assert forall|x: int, y: int|
                old(self).in_bounds(x, y) && !(x == position.x && y == position.y) implies final(self).tile_at(x, y) == old(self).tile_at(x, y) by {
                old(self).lemma_index_ok(x, y);
                if self.tile_index(x, y) == idx {
                    lemma_grid_index_injective(
                        x - self.metadata.offset_x,
                        y - self.metadata.offset_y,
                        position.x - self.metadata.offset_x,
                        position.y - self.metadata.offset_y,
                        self.metadata.height as int,
                    );
                }
            }
        }
    }

    /// What a session reads at a position: the tile's objects inside the
    /// generated area at the ground layer, open water outside it at the
    /// ground layer, nothing at any other layer.
    pub open spec fn spec_get_tile_objects(self, position: Position) -> Option<Seq<TileObject>> {
        if self.in_bounds(position.x as int, position.y as int) {
            if position.z == GROUND_LAYER {
                Some(self.tile_at(position.x as int, position.y as int))
            } else {
                None
            }
        } else if position.z == GROUND_LAYER {
            Some(seq![TileObject::Other(0x000e)])
        } else {
            None
        }
    }

    pub fn get_tile_objects(&self, position: Position) -> (r: Option<Vec<TileObject>>)
        requires
            self.wf(),
        ensures
            match r {
                Some(objects) => self.spec_get_tile_objects(position) == Some(objects@),
                None => self.spec_get_tile_objects(position) is None,
            },
    {
        let in_bounds = position.x >= self.metadata.offset_x && (position.x as u32) < (
        self.metadata.offset_x as u32) + (self.metadata.width as u32) && position.y
            >= self.metadata.offset_y && (position.y as u32) < (self.metadata.offset_y as u32) + (
        self.metadata.height as u32);
        if in_bounds {
            if position.z == GROUND_LAYER {
                proof {
                    self.lemma_index_ok(position.x as int, position.y as int);
                }
                let total = self.tiles.len();
                assert(self.tile_index(position.x as int, position.y as int) < total);
                let idx = (position.x - self.metadata.offset_x) as usize
                    * self.metadata.height as usize + (position.y
                    - self.metadata.offset_y) as usize;
                let mut objects = Vec::new();
                let mut i: usize = 0;
                let n = self.tiles[idx].0.len();
                while i < n
                    invariant
                        0 <= idx < self.tiles@.len(),
                        n == self.tiles@[idx as int].0@.len(),
                        i <= n,
                        objects@ == self.tiles@[idx as int].0@.take(i as int),
                    decreases n - i,
                {
                    objects.push(self.tiles[idx].0[i]);
                    assert(objects@ =~= self.tiles@[idx as int].0@.take(i + 1));
                    i = i + 1;
                }
                assert(objects@ =~= self.tiles@[idx as int].0@);
                Some(objects)
            } else {
                None
            }
        } else if position.z == GROUND_LAYER {
            let mut water = Vec::new();
            water.push(TileObject::Other(0x000e));
            assert(water@ =~= seq![TileObject::Other(0x000eu16)]);
            Some(water)
        } else {
            None
        }
    }
}

proof fn lemma_mul_bound(x: int, w: int, h: int)
    by (nonlinear_arith)
    requires
        0 <= x < w,
        0 <= h,
    ensures
        (x + 1) * h <= w * h,
{
}

/// The temple area: a checkerboard with a cleared plaza, water, marble
/// flooring, light sources, stones and trees laid over it.
#[verifier::rlimit(100)]
fn rookgaard_layout(m: &mut WorldMap)
    requires
        old(m).wf(),
        old(m).metadata.offset_x + 8 + 2 <= old(m).metadata.respawn_location.x,
        old(m).metadata.respawn_location.x + 8 < old(m).metadata.offset_x + old(m).metadata.width,
        old(m).metadata.offset_y + 6 + 2 <= old(m).metadata.respawn_location.y,
        old(m).metadata.respawn_location.y + 6 < old(m).metadata.offset_y + old(m).metadata.height,
        old(m).metadata.offset_x + old(m).metadata.width <= u16::MAX,
        old(m).metadata.offset_y + old(m).metadata.height <= u16::MAX,
    ensures
        final(m).wf(),
        final(m).metadata == old(m).metadata,
{
    let center = m.metadata.respawn_location;
    let x_1 = center.x - 8;
    let x_2 = center.x + 8;
    let y_1 = center.y - 6;
    let y_2 = center.y + 6;

    // plaza
    let mut x = x_1 + 2;
    while x <= x_2 - 2
        invariant
            m.wf(),
            m.metadata == old(m).metadata,
            x_1 + 2 <= x,
            x_1 == center.x - 8,
            x_2 == center.x + 8,
            y_1 == center.y - 6,
            y_2 == center.y + 6,
            center == m.metadata.respawn_location,
            m.metadata.offset_x <= x_1 && x_2 < m.metadata.offset_x + m.metadata.width,
            m.metadata.offset_y <= y_1 && y_2 < m.metadata.offset_y + m.metadata.height,
        decreases x_2 - x,
    {
        let mut y = y_1 + 2;
        while y <= y_2 - 2
            invariant
                m.wf(),
                m.metadata == old(m).metadata,
                x_1 + 2 <= x <= x_2 - 2,
                y_1 + 2 <= y,
                x_1 == center.x - 8,
                x_2 == center.x + 8,
                y_1 == center.y - 6,
                y_2 == center.y + 6,
                center == m.metadata.respawn_location,
                m.metadata.offset_x <= x_1 && x_2 < m.metadata.offset_x + m.metadata.width,
                m.metadata.offset_y <= y_1 && y_2 < m.metadata.offset_y + m.metadata.height,
            decreases y_2 - y,
        {
            let p = Position::new(x, y, GROUND_LAYER);
            m.clear_tile(p);
            m.push_object(p, TileObject::Other(0x0a));
            y = y + 1;
        }
        x = x + 1;
    }

    // water
    m.push_object(Position::new(x_1 + 2, y_1 + 10, GROUND_LAYER), TileObject::Other(0x5a0e));
    m.push_object(Position::new(x_1 + 3, y_1 + 10, GROUND_LAYER), TileObject::Other(0x5f0e));
    m.push_object(Position::new(x_1 + 13, y_1 + 10, GROUND_LAYER), TileObject::Other(0x5c0e));
    m.push_object(Position::new(x_1 + 14, y_1 + 10, GROUND_LAYER), TileObject::Other(0x000e));
    m.push_object(Position::new(x_1 + 13, y_1 + 9, GROUND_LAYER), TileObject::Other(0x5e0e));
    m.push_object(Position::new(x_1 + 14, y_1 + 9, GROUND_LAYER), TileObject::Other(0x5a0e));

    // marble
    m.push_object(Position::new(x_1 + 5, y_1 + 9, GROUND_LAYER), TileObject::Other(0x010c));
    m.push_object(Position::new(x_1 + 5, y_1 + 9, GROUND_LAYER), TileObject::Other(0x0327));
    m.push_object(Position::new(x_1 + 6, y_1 + 9, GROUND_LAYER), TileObject::Other(0x010c));
    m.push_object(Position::new(x_1 + 7, y_1 + 9, GROUND_LAYER), TileObject::Other(0x010c));
    m.push_object(Position::new(x_1 + 7, y_1 + 9, GROUND_LAYER), TileObject::Other(0x0327));
    m.push_object(Position::new(x_1 + 8, y_1 + 9, GROUND_LAYER), TileObject::Other(0x0113));
    m.push_object(Position::new(x_1 + 9, y_1 + 9, GROUND_LAYER), TileObject::Other(0x010c));
    m.push_object(Position::new(x_1 + 9, y_1 + 9, GROUND_LAYER), TileObject::Other(0x0327));
    m.push_object(Position::new(x_1 + 10, y_1 + 9, GROUND_LAYER), TileObject::Other(0x010c));
    m.push_object(Position::new(x_1 + 11, y_1 + 9, GROUND_LAYER), TileObject::Other(0x010c));
    m.push_object(Position::new(x_1 + 11, y_1 + 9, GROUND_LAYER), TileObject::Other(0x0327));

    m.push_object(Position::new(x_1 + 5, y_1 + 8, GROUND_LAYER), TileObject::Other(0x010c));
    m.push_object(Position::new(x_1 + 5, y_1 + 8, GROUND_LAYER), TileObject::LightSource(0x0072, 6));
    m.push_object(Position::new(x_1 + 6, y_1 + 8, GROUND_LAYER), TileObject::Other(0x010c));
    m.push_object(Position::new(x_1 + 7, y_1 + 8, GROUND_LAYER), TileObject::Other(0x0113));
    m.push_object(Position::new(x_1 + 8, y_1 + 8, GROUND_LAYER), TileObject::Other(0x010c));
    m.push_object(Position::new(x_1 + 9, y_1 + 8, GROUND_LAYER), TileObject::Other(0x0113));
    m.push_object(Position::new(x_1 + 10, y_1 + 8, GROUND_LAYER), TileObject::Other(0x010c));
    m.push_object(Position::new(x_1 + 11, y_1 + 8, GROUND_LAYER), TileObject::Other(0x010c));
    m.push_object(
        Position::new(x_1 + 11, y_1 + 8, GROUND_LAYER),
        TileObject::LightSource(0x0072, 6),
    );

    m.push_object(Position::new(x_1 + 5, y_1 + 7, GROUND_LAYER), TileObject::Other(0x010c));
    m.push_object(Position::new(x_1 + 5, y_1 + 7, GROUND_LAYER), TileObject::Other(0x0327));
    m.push_object(Position::new(x_1 + 6, y_1 + 7, GROUND_LAYER), TileObject::Other(0x0113));
    m.push_object(Position::new(x_1 + 7, y_1 + 7, GROUND_LAYER), TileObject::Other(0x010c));
    m.push_object(Position::new(x_1 + 8, y_1 + 7, GROUND_LAYER), TileObject::Other(0x0113));
    m.push_object(Position::new(x_1 + 9, y_1 + 7, GROUND_LAYER), TileObject::Other(0x010c));
    m.push_object(Position::new(x_1 + 10, y_1 + 7, GROUND_LAYER), TileObject::Other(0x0113));
    m.push_object(Position::new(x_1 + 11, y_1 + 7, GROUND_LAYER), TileObject::Other(0x010c));
    m.push_object(Position::new(x_1 + 11, y_1 + 7, GROUND_LAYER), TileObject::Other(0x0327));

    m.push_object(Position::new(x_1 + 5, y_1 + 6, GROUND_LAYER), TileObject::Other(0x010c));
    m.push_object(Position::new(x_1 + 6, y_1 + 6, GROUND_LAYER), TileObject::Other(0x010c));
    m.push_object(Position::new(x_1 + 7, y_1 + 6, GROUND_LAYER), TileObject::Other(0x0113));
    m.push_object(Position::new(x_1 + 8, y_1 + 6, GROUND_LAYER), TileObject::Other(0x010c));
    m.push_object(Position::new(x_1 + 9, y_1 + 6, GROUND_LAYER), TileObject::Other(0x0113));
    m.push_object(Position::new(x_1 + 10, y_1 + 6, GROUND_LAYER), TileObject::Other(0x010c));
    m.push_object(Position::new(x_1 + 11, y_1 + 6, GROUND_LAYER), TileObject::Other(0x010c));

    m.push_object(Position::new(x_1 + 5, y_1 + 5, GROUND_LAYER), TileObject::Other(0x010c));
    m.push_object(Position::new(x_1 + 5, y_1 + 5, GROUND_LAYER), TileObject::Other(0x0327));
    m.push_object(Position::new(x_1 + 6, y_1 + 5, GROUND_LAYER), TileObject::Other(0x010c));
    m.push_object(Position::new(x_1 + 7, y_1 + 5, GROUND_LAYER), TileObject::Other(0x010c));
    m.push_object(Position::new(x_1 + 8, y_1 + 5, GROUND_LAYER), TileObject::Other(0x0113));
    m.push_object(Position::new(x_1 + 9, y_1 + 5, GROUND_LAYER), TileObject::Other(0x010c));
    m.push_object(Position::new(x_1 + 10, y_1 + 5, GROUND_LAYER), TileObject::Other(0x010c));
    m.push_object(Position::new(x_1 + 11, y_1 + 5, GROUND_LAYER), TileObject::Other(0x010c));
    m.push_object(Position::new(x_1 + 11, y_1 + 5, GROUND_LAYER), TileObject::Other(0x0327));

    m.push_object(Position::new(x_1 + 5, y_1 + 4, GROUND_LAYER), TileObject::Other(0x010c));
    m.push_object(Position::new(x_1 + 6, y_1 + 4, GROUND_LAYER), TileObject::Other(0x010c));
    m.push_object(Position::new(x_1 + 7, y_1 + 4, GROUND_LAYER), TileObject::Other(0x010c));
    m.push_object(Position::new(x_1 + 8, y_1 + 4, GROUND_LAYER), TileObject::Other(0x010c));
    m.push_object(Position::new(x_1 + 9, y_1 + 4, GROUND_LAYER), TileObject::Other(0x010c));
    m.push_object(Position::new(x_1 + 10, y_1 + 4, GROUND_LAYER), TileObject::Other(0x010c));
    m.push_object(Position::new(x_1 + 11, y_1 + 4, GROUND_LAYER), TileObject::Other(0x010c));

    m.push_object(Position::new(x_1 + 5, y_1 + 3, GROUND_LAYER), TileObject::Other(0x010c));
    m.push_object(Position::new(x_1 + 5, y_1 + 3, GROUND_LAYER), TileObject::Other(0x0327));
    m.push_object(Position::new(x_1 + 6, y_1 + 3, GROUND_LAYER), TileObject::Other(0x010c));
    m.push_object(Position::new(x_1 + 7, y_1 + 3, GROUND_LAYER), TileObject::Other(0x010c));
    m.push_object(Position::new(x_1 + 8, y_1 + 3, GROUND_LAYER), TileObject::Other(0x010c));
    m.push_object(Position::new(x_1 + 9, y_1 + 3, GROUND_LAYER), TileObject::Other(0x010c));
    m.push_object(Position::new(x_1 + 10, y_1 + 3, GROUND_LAYER), TileObject::Other(0x010c));
    m.push_object(Position::new(x_1 + 11, y_1 + 3, GROUND_LAYER), TileObject::Other(0x010c));
    m.push_object(Position::new(x_1 + 11, y_1 + 3, GROUND_LAYER), TileObject::Other(0x0327));

    m.push_object(Position::new(x_1 + 5, y_1 + 2, GROUND_LAYER), TileObject::Other(0x010c));
    m.push_object(Position::new(x_1 + 5, y_1 + 2, GROUND_LAYER), TileObject::LightSource(0x0072, 6));
    m.push_object(Position::new(x_1 + 6, y_1 + 2, GROUND_LAYER), TileObject::Other(0x010c));
    m.push_object(Position::new(x_1 + 7, y_1 + 2, GROUND_LAYER), TileObject::Other(0x010c));
    m.push_object(Position::new(x_1 + 8, y_1 + 2, GROUND_LAYER), TileObject::Other(0x010c));
    m.push_object(Position::new(x_1 + 9, y_1 + 2, GROUND_LAYER), TileObject::Other(0x010c));
    m.push_object(Position::new(x_1 + 10, y_1 + 2, GROUND_LAYER), TileObject::Other(0x010c));
    m.push_object(Position::new(x_1 + 11, y_1 + 2, GROUND_LAYER), TileObject::Other(0x010c));
    m.push_object(
        Position::new(x_1 + 11, y_1 + 2, GROUND_LAYER),
        TileObject::LightSource(0x0072, 6),
    );

    // stone on top
    m.push_object(Position::new(x_1 + 2, y_1 + 2, GROUND_LAYER), TileObject::Other(0xb00a));
    m.push_object(Position::new(x_1 + 2, y_1 + 3, GROUND_LAYER), TileObject::Other(0xac0a));
    m.push_object(Position::new(x_1 + 3, y_1 + 2, GROUND_LAYER), TileObject::Other(0xac0a));

    // trees
    m.push_object(Position::new(x_1 + 13, y_1 + 2, GROUND_LAYER), TileObject::Other(0x01a3));
    m.push_object(Position::new(x_1 + 13, y_1 + 4, GROUND_LAYER), TileObject::Other(0x00a3));
    m.push_object(Position::new(x_1 + 14, y_1 + 4, GROUND_LAYER), TileObject::Other(0x01a3));
    m.push_object(Position::new(x_1 + 15, y_1 + 4, GROUND_LAYER), TileObject::Other(0x00a3));
    m.push_object(Position::new(x_1 + 15, y_1 + 3, GROUND_LAYER), TileObject::Other(0x00a0));
}

impl WorldMap {
    /// The starting town's temple area laid over a checkerboard.
    pub fn rookgaard_temple(
        width: u16,
        height: u16,
        offset_x: u16,
        offset_y: u16,
        respawn_location: Position,
    ) -> (m: WorldMap)
        requires
            width * height <= usize::MAX,
            offset_x + width <= u16::MAX,
            offset_y + height <= u16::MAX,
            offset_x + 10 <= respawn_location.x,
            respawn_location.x + 8 < offset_x + width,
            offset_y + 8 <= respawn_location.y,
            respawn_location.y + 6 < offset_y + height,
        ensures
            m.wf(),
            m.metadata == (MapMetadata { width, height, offset_x, offset_y, respawn_location }),
    {
        let mut m = Self::checkerboard_pattern(width, height, offset_x, offset_y, respawn_location);
        rookgaard_layout(&mut m);
        m
    }
}

/// Builds the world map that the configuration selects.  Fails when the
/// fixed-tile generator is chosen without a tile id, when the file
/// generator is chosen without a file name, and for file maps, which are
/// not yet supported.
pub fn init_map(config: &MapConfig) -> (r: Result<WorldMap, MapError>)
    ensures
        match r {
            Ok(m) => {
                &&& m.wf()
                &&& m.metadata == (MapMetadata {
                    width: MAP_WIDTH,
                    height: MAP_HEIGHT,
                    offset_x: 0,
                    offset_y: 0,
                    respawn_location: Position { x: 50, y: 50, z: GROUND_LAYER },
                })
                &&& !(config.map_type is File)
                &&& (config.map_type is FixedTile ==> config.tile is Some)
            },
            Err(e) => match config.map_type {
                MapType::FixedTile => config.tile is None && e == MapError::MissingTile,
                MapType::Checkerboard => false,
                MapType::RookgaardTemple => false,
                MapType::File => e == (if config.file is Some {
                    MapError::FileMapsUnsupported
                } else {
                    MapError::MissingFile
                }),
            },
        },
{
    let respawn = Position::new(50, 50, GROUND_LAYER);
    match config.map_type {
        MapType::FixedTile => {
            match config.tile {
                Some(tile) => Ok(
                    WorldMap::fixed_tile(tile, MAP_WIDTH, MAP_HEIGHT, 0, 0, respawn),
                ),
                None => Err(MapError::MissingTile),
            }
        },
        MapType::Checkerboard => Ok(
            WorldMap::checkerboard_pattern(MAP_WIDTH, MAP_HEIGHT, 0, 0, respawn),
        ),
        MapType::RookgaardTemple => Ok(
            WorldMap::rookgaard_temple(MAP_WIDTH, MAP_HEIGHT, 0, 0, respawn),
        ),
        MapType::File => {
            match &config.file {
                Some(_file) => Err(MapError::FileMapsUnsupported),
                None => Err(MapError::MissingFile),
            }
        },
    }
}

} // verus!
