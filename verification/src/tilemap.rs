use vstd::prelude::*;

verus! {

/// A grid coordinate of the tile map: `x` selects the column, `y` the row
/// within that column.
#[derive(PartialEq, Eq, Clone, Copy, Debug, Structural)]
pub struct TileCoord {
    pub x: u32,
    pub y: u32,
}

/// The kind of a tile, selecting its source image and collision contribution.
#[derive(PartialEq, Eq, Clone, Copy, Debug, Structural)]
pub enum TileType {
    Empty,
    Wall,
}

/// One cell of the tile map.
#[derive(PartialEq, Eq, Clone, Copy, Debug, Structural)]
pub struct Tile {
    pub tile_type: TileType,
}

impl Tile {
    /// Side length of a tile's source image, in texels.
    pub const SIZE_TEXELS: u32 = 8;

    /// Side length of a tile on the target surface, in pixels.
    pub const SIZE_PIXELS: u32 = 16;
}

/// One pending sub-image copy onto the target surface: the source image of
/// `tile_type`, pasted with its top-left corner at `(x_px, y_px)` and covering
/// `Tile::SIZE_PIXELS` pixels on each side.
#[derive(PartialEq, Eq, Clone, Copy, Debug, Structural)]
pub struct TileBlit {
    pub x_px: u64,
    pub y_px: u64,
    pub tile_type: TileType,
}

/// Does `t` select a source image? Empty cells have none and are skipped when
/// the map is flushed to a surface.
pub open spec fn spec_has_image(t: TileType) -> bool {
    t != TileType::Empty
}

impl TileType {
    /// The asset path of this type's source image, or none for types without
    /// an image.
    pub fn path_to_image(self) -> (r: Option<&'static str>)
        ensures
            r is Some <==> spec_has_image(self),
    {
        match self {
            Self::Empty => None,
            Self::Wall => Some("assets/wall.png"),
        }
    }

    /// The collision contribution of this type, or none for passable types.
    pub fn shape(self) -> (r: Option<TileShape>)
        ensures
            r == (match self {
                TileType::Empty => Option::<TileShape>::None,
                TileType::Wall => Option::<TileShape>::Some(TileShape::Square),
            }),
    {
        match self {
            Self::Empty => None,
            Self::Wall => Some(TileShape::Square),
        }
    }
}

/// The collision outline family of a tile type.
#[derive(PartialEq, Eq, Clone, Copy, Debug, Structural)]
pub enum TileShape {
    Square,
}

/// A closed polygonal outline in tile-local coordinates: `points` are the
/// corners, and each entry of `segments` joins two corners by index.
#[derive(Clone, Debug)]
pub struct ShapeOutline {
    pub points: Vec<(i64, i64)>,
    pub segments: Vec<[u32; 2]>,
}

impl TileShape {
    /// The outline of this shape over the unit tile, with its corners joined
    /// into a single closed loop.
    pub fn get_shape(self) -> (r: ShapeOutline)
        ensures
            r.points@ == seq![(0i64, 0i64), (1i64, 0i64), (1i64, 1i64), (0i64, 1i64)],
            r.segments@.len() == 4,
            forall|i: int|
                0 <= i < 4 ==> r.segments@[i] == [i as u32, ((i + 1) % 4) as u32],
    {
        match self {
            Self::Square => {
                let mut points: Vec<(i64, i64)> = Vec::new();
                points.push((0, 0));
                points.push((1, 0));
                points.push((1, 1));
                points.push((0, 1));
                proof {
                    assert(points@ =~= seq![(0i64, 0i64), (1i64, 0i64), (1i64, 1i64), (0i64, 1i64)]);
                }
                ShapeOutline { points, segments: loop_indicies(4) }
            }
        }
    }
}

/// The segment list that joins `length` points into one closed loop:
/// each point is connected to the next, and the last back to the first.
pub fn loop_indicies(length: u32) -> (r: Vec<[u32; 2]>)
    ensures
        r@.len() == length,
        forall|i: int| 0 <= i < length ==> r@[i] == [i as u32, ((i + 1) % (length as int)) as u32],
{
    let mut r: Vec<[u32; 2]> = Vec::new();
    let mut i: u32 = 0;
    while i < length
        invariant
            0 <= i <= length,
            r@.len() == i,
            forall|k: int|
                0 <= k < i ==> r@[k] == [k as u32, ((k + 1) % (length as int)) as u32],
        decreases length - i,
    {
        r.push([i, (i + 1) % length]);
        i = i + 1;
    }
    r
}

/// The mathematical model of a tile map: the grid of cells (column by column)
/// and the dirty coordinates accumulated since the last flush, oldest first.
pub struct TileMapView {
    pub grid: Seq<Seq<Tile>>,
    pub dirty: Seq<TileCoord>,
}

impl TileMapView {
    /// Is `c` a coordinate of a cell of the grid?
    pub open spec fn in_bounds(self, c: TileCoord) -> bool {
        c.x < self.grid.len() && c.y < self.grid[c.x as int].len()
    }

    /// The cell at `c`.
    pub open spec fn tile_at(self, c: TileCoord) -> Tile {
        self.grid[c.x as int][c.y as int]
    }

    /// The model after writing `tile` at `c`: the cell is replaced and `c`
    /// joins the dirty set unless already present; out-of-range writes leave
    /// the model unchanged.
    pub open spec fn set_spec(self, c: TileCoord, tile: Tile) -> TileMapView {
        if self.in_bounds(c) {
            TileMapView {
                grid: self.grid.update(
                    c.x as int,
                    self.grid[c.x as int].update(c.y as int, tile),
                ),
                dirty: self.mark_spec(c).dirty,
            }
        } else {
            self
        }
    }

    /// The model after marking `c` dirty without changing its cell;
    /// out-of-range coordinates leave the model unchanged.
    pub open spec fn mark_spec(self, c: TileCoord) -> TileMapView {
        if self.in_bounds(c) {
            TileMapView {
                grid: self.grid,
                dirty: if self.dirty.contains(c) {
                    self.dirty
                } else {
                    self.dirty.push(c)
                },
            }
        } else {
            self
        }
    }

    /// The sub-image copies owed for the dirty coordinates, in the order the
    /// coordinates were marked. A coordinate whose tile has no image, or which
    /// does not address a cell, contributes nothing.
    pub open spec fn blits_spec(self) -> Seq<TileBlit> {
        blits_of(self.dirty, self.grid)
    }

    /// The model after a flush: same grid, no dirty coordinates.
    pub open spec fn flushed_spec(self) -> TileMapView {
        TileMapView { grid: self.grid, dirty: Seq::empty() }
    }
}

/// The sub-image copies owed for the coordinates of `dirty` over `grid`.
pub open spec fn blits_of(dirty: Seq<TileCoord>, grid: Seq<Seq<Tile>>) -> Seq<TileBlit>
    decreases dirty.len(),
{
    if dirty.len() == 0 {
        Seq::empty()
    } else {
        blits_of(dirty.drop_last(), grid) + coord_blits(dirty.last(), grid)
    }
}

/// The sub-image copies owed for one coordinate: exactly one, at the
/// coordinate scaled by the tile pixel size, when the coordinate addresses a
/// cell whose tile has a source image.
pub open spec fn coord_blits(c: TileCoord, grid: Seq<Seq<Tile>>) -> Seq<TileBlit> {
    if c.x < grid.len() && c.y < grid[c.x as int].len() && spec_has_image(
        grid[c.x as int][c.y as int].tile_type,
    ) {
        seq![
            TileBlit {
                x_px: (16 * (c.x as int)) as u64,
                y_px: (16 * (c.y as int)) as u64,
                tile_type: grid[c.x as int][c.y as int].tile_type,
            },
        ]
    } else {
        Seq::empty()
    }
}

/// Law: writing one cell of a clean map and then flushing yields exactly one
/// sub-image copy — for that cell, at the cell scaled by the tile pixel size —
/// when the written tile has an image, and none otherwise; the flush leaves
/// the dirty set empty, so a second flush with no intervening mutation yields
/// no copy at all.
pub proof fn lemma_set_then_flush(v: TileMapView, c: TileCoord, t: Tile)
    requires
        v.dirty.len() == 0,
        v.in_bounds(c),
    ensures
        ({
            let written = v.set_spec(c, t);
            let flushed = written.flushed_spec();
            &&& written.dirty == seq![c]
            &&& written.blits_spec() == (if spec_has_image(t.tile_type) {
                seq![
                    TileBlit {
                        x_px: (16 * (c.x as int)) as u64,
                        y_px: (16 * (c.y as int)) as u64,
                        tile_type: t.tile_type,
                    },
                ]
            } else {
                Seq::<TileBlit>::empty()
            })
            &&& flushed.dirty.len() == 0
            &&& flushed.blits_spec() == Seq::<TileBlit>::empty()
        }),
{
    let written = v.set_spec(c, t);
    assert(written.dirty =~= seq![c]);
    assert(written.in_bounds(c));
    assert(written.tile_at(c) == t);
    assert(written.dirty.last() == c);
    assert(written.dirty.drop_last() == Seq::<TileCoord>::empty()) by {
        assert(written.dirty.drop_last() =~= Seq::<TileCoord>::empty());
    }
    assert(blits_of(written.dirty.drop_last(), written.grid) == Seq::<TileBlit>::empty());
    assert(written.blits_spec() =~= coord_blits(c, written.grid));
    if spec_has_image(t.tile_type) {
        assert(written.blits_spec() =~= seq![
            TileBlit {
                x_px: (16 * (c.x as int)) as u64,
                y_px: (16 * (c.y as int)) as u64,
                tile_type: t.tile_type,
            },
        ]);
    }
}

/// A rectangular grid of typed tiles that remembers which coordinates were
/// mutated since the last flush, so a renderable surface can be brought up to
/// date by re-copying only those cells.
#[derive(Clone, Debug)]
pub struct TileMap {
    contents: Vec<Vec<Tile>>,
    updates: Vec<TileCoord>,
}

impl View for TileMap {
    type V = TileMapView;

    closed spec fn view(&self) -> TileMapView {
        TileMapView {
            grid: self.contents@.map_values(|column: Vec<Tile>| column@),
            dirty: self.updates@,
        }
    }
}

impl TileMap {
    /// A map of `width` columns of `height` cells each, all empty, with
    /// nothing marked dirty.
    pub fn new(width: u32, height: u32) -> (r: TileMap)
        ensures
            r@.grid.len() == width,
            forall|x: int|
                0 <= x < width ==> #[trigger] r@.grid[x] == Seq::new(
                    height as nat,
                    |y: int| Tile { tile_type: TileType::Empty },
                ),
            r@.dirty.len() == 0,
    {
        let mut contents: Vec<Vec<Tile>> = Vec::new();
        let mut x: u32 = 0;
        while x < width
            invariant
                0 <= x <= width,
                contents@.len() == x,
                forall|k: int|
                    0 <= k < x ==> #[trigger] contents@[k]@ == Seq::new(
                        height as nat,
                        |y: int| Tile { tile_type: TileType::Empty },
                    ),
            decreases width - x,
        {
            let mut column: Vec<Tile> = Vec::new();
            let mut y: u32 = 0;
            while y < height
                invariant
                    0 <= y <= height,
                    column@.len() == y,
                    forall|k: int|
                        0 <= k < y ==> column@[k] == (Tile { tile_type: TileType::Empty }),
                decreases height - y,
            {
                column.push(Tile { tile_type: TileType::Empty });
                y = y + 1;
            }
            proof {
                assert(column@ =~= Seq::new(
                    height as nat,
                    |y: int| Tile { tile_type: TileType::Empty },
                ));
            }
            contents.push(column);
            x = x + 1;
        }
        let r = TileMap { contents, updates: Vec::new() };
        proof {
            assert(forall|k: int| 0 <= k < width ==> r@.grid[k] == contents@[k]@);
        }
        r
    }

    /// The grid's extent: column count, and cell count of the first column.
    /// A map with no columns reports no rows either.
    pub fn size(&self) -> (r: (u32, u32))
        requires
            self@.grid.len() <= u32::MAX,
            self@.grid.len() > 0 ==> self@.grid[0].len() <= u32::MAX,
        ensures
            r.0 == self@.grid.len(),
            self@.grid.len() > 0 ==> r.1 == self@.grid[0].len(),
            self@.grid.len() == 0 ==> r.1 == 0,
    {
        if self.contents.len() == 0 {
            (0, 0)
        } else {
            (self.contents.len() as u32, self.contents[0].len() as u32)
        }
    }

    /// The tile at `index`, or nothing when `index` lies outside the grid.
    /// An out-of-range lookup is a recoverable absence, never a fault.
    pub fn get(&self, index: TileCoord) -> (r: Option<&Tile>)
        ensures
            self@.in_bounds(index) ==> r == Some(&self@.tile_at(index)),
            !self@.in_bounds(index) ==> r is None,
    {
        let xi = index.x as usize;
        if xi < self.contents.len() {
            let column = &self.contents[xi];
            let yi = index.y as usize;
            if yi < column.len() {
                return Some(&column[yi]);
            }
        }
        None
    }

    /// The tile at `index` for mutation in place, or nothing when `index`
    /// lies outside the grid. Writing through the result changes only that
    /// cell; it does not mark the cell dirty — the caller forces a re-sync
    /// with `update_tile` when it wants one.
    pub fn get_mut(&mut self, index: TileCoord) -> (r: Option<&mut Tile>)
        ensures
            r is Some <==> old(self)@.in_bounds(index),
            old(self)@.in_bounds(index) ==> {
                &&& *r->Some_0 == old(self)@.tile_at(index)
                &&& final(self)@.grid == old(self)@.grid.update(
                    index.x as int,
                    old(self)@.grid[index.x as int].update(index.y as int, *final(r->Some_0)),
                )
                &&& final(self)@.dirty == old(self)@.dirty
            },
            !old(self)@.in_bounds(index) ==> final(self)@ == old(self)@,
    {
        let xi = index.x as usize;
        if xi < self.contents.len() {
            let column_len = self.contents[xi].len();
            let yi = index.y as usize;
            if yi < column_len {
                let ghost pre = self@;
                let tile = &mut self.contents[xi][yi];
                proof {
                    assert(after_borrow(self.contents)@.map_values(|column: Vec<Tile>| column@)
                        =~= pre.grid.update(
                        index.x as int,
                        pre.grid[index.x as int].update(index.y as int, *final(tile)),
                    ));
                }
                return Some(tile);
            }
        }
        None
    }

    /// Writes `tile` at `index` and marks `index` dirty; reports an absence
    /// and changes nothing when `index` lies outside the grid.
    pub fn set(&mut self, index: TileCoord, tile: Tile) -> (r: Option<()>)
        ensures
            final(self)@ == old(self)@.set_spec(index, tile),
            r is Some <==> old(self)@.in_bounds(index),
    {
        let xi = index.x as usize;
        if xi < self.contents.len() {
            let column_len = self.contents[xi].len();
            let yi = index.y as usize;
            if yi < column_len {
                let ghost pre = self@;
                self.contents[xi][yi] = tile;
                proof {
                    assert(self@.grid =~= pre.grid.update(
                        index.x as int,
                        pre.grid[index.x as int].update(index.y as int, tile),
                    ));
                }
                self.push_dirty(index);
                return Some(());
            }
        }
        None
    }

    /// Marks `index` dirty without changing its tile, forcing the cell to be
    /// re-copied at the next flush; reports an absence and changes nothing
    /// when `index` lies outside the grid on either axis.
    pub fn update_tile(&mut self, index: TileCoord) -> (r: Option<()>)
        ensures
            final(self)@ == old(self)@.mark_spec(index),
            r is Some <==> old(self)@.in_bounds(index),
    {
        let xi = index.x as usize;
        if xi < self.contents.len() {
            let yi = index.y as usize;
            if yi < self.contents[xi].len() {
                self.push_dirty(index);
                return Some(());
            }
        }
        None
    }

    /// Appends `index` to the dirty list unless it is already pending.
    fn push_dirty(&mut self, index: TileCoord)
        ensures
            final(self)@.grid == old(self)@.grid,
            final(self)@.dirty == (if old(self)@.dirty.contains(index) {
                old(self)@.dirty
            } else {
                old(self)@.dirty.push(index)
            }),
    {
        let mut i: usize = 0;
        while i < self.updates.len()
            invariant
                0 <= i <= self.updates@.len(),
                !(exists|k: int| 0 <= k < i && self.updates@[k] == index),
            decreases self.updates@.len() - i,
        {
            if self.updates[i].x == index.x && self.updates[i].y == index.y {
                return;
            }
            i = i + 1;
        }
        self.updates.push(index);
    }

    /// How many coordinates are marked dirty and awaiting the next flush.
    pub fn dirty_count(&self) -> (r: usize)
        ensures
            r == self@.dirty.len(),
    {
        self.updates.len()
    }

    /// Computes the sub-image copies owed for every coordinate marked dirty
    /// since the last flush — one copy per dirty cell whose tile has a source
    /// image, none twice, none dropped — and clears the dirty set. The caller
    /// applies the copies to its surface.
    pub fn update_to_texture(&mut self) -> (r: Vec<TileBlit>)
        ensures
            r@ == old(self)@.blits_spec(),
            final(self)@ == old(self)@.flushed_spec(),
    {
        let ghost v = self@;
        let mut r: Vec<TileBlit> = Vec::new();
        let mut i: usize = 0;
        while i < self.updates.len()
            invariant
                0 <= i <= self.updates@.len(),
                self@ == v,
                r@ == blits_of(v.dirty.take(i as int), v.grid),
            decreases self.updates@.len() - i,
        {
            let c = self.updates[i];
            let xi = c.x as usize;
            if xi < self.contents.len() {
                let column = &self.contents[xi];
                let yi = c.y as usize;
                if yi < column.len() {
                    let tile = column[yi];
                    match tile.tile_type {
                        TileType::Empty => {},
                        TileType::Wall => {
                            r.push(
                                TileBlit {
                                    x_px: (c.x as u64) * 16,
                                    y_px: (c.y as u64) * 16,
                                    tile_type: tile.tile_type,
                                },
                            );
                        },
                    }
                }
            }
            proof {
                assert(v.dirty.take(i + 1).drop_last() =~= v.dirty.take(i as int));
                assert(v.dirty.take(i + 1).last() == v.dirty[i as int]);
            }
            i = i + 1;
        }
        proof {
            assert(v.dirty.take(v.dirty.len() as int) =~= v.dirty);
        }
        self.updates = Vec::new();
        proof {
            assert(self@.dirty =~= Seq::<TileCoord>::empty());
        }
        r
    }
}

} // verus!
