//! The world model and generator: map sizes, occupancy grids, positions,
//! and the algorithm that carves random wall runs into a fresh grid and
//! picks a non-colliding spawn point.

use vstd::prelude::*;
use vstd::arithmetic::div_mod::lemma_div_is_ordered;
use crate::rng::RandomSource;
use crate::GameError;

verus! {

/// Smallest accepted map width.
pub const MAP_WIDTH_MIN: i32 = 10;
/// Largest accepted map width.
pub const MAP_WIDTH_MAX: i32 = 100;
/// Smallest accepted map height.
pub const MAP_HEIGHT_MIN: i32 = 10;
/// Largest accepted map height.
pub const MAP_HEIGHT_MAX: i32 = 100;

/// Fewest wall runs carved into a fresh grid.
pub const WALL_COUNT_MIN: i32 = 10;
/// Exclusive upper bound on the number of wall runs.
pub const WALL_COUNT_MAX: i32 = 40;
/// Shortest wall run.
pub const WALL_LENGTH_MIN: i32 = 4;

/// A requested map size: width and height in cells.
#[derive(Clone, Copy, Debug, PartialEq, Eq, Structural)]
pub struct MapSize {
    pub width: i32,
    pub height: i32,
}

impl MapSize {
    /// Both dimensions lie within the configured bounds.
    pub open spec fn valid(self) -> bool {
        &&& MAP_WIDTH_MIN <= self.width <= MAP_WIDTH_MAX
        &&& MAP_HEIGHT_MIN <= self.height <= MAP_HEIGHT_MAX
    }

    /// Number of cells of a grid of this size.
    pub open spec fn cell_count(self) -> int {
        self.width * self.height
    }

    /// The longer of the two dimensions.
    pub open spec fn max_dim(self) -> int {
        if self.width >= self.height {
            self.width as int
        } else {
            self.height as int
        }
    }

    /// Most cells the wall runs can ever mark: fewer than `WALL_COUNT_MAX`
    /// runs, each shorter than half the longer dimension. Whenever this
    /// stays below `cell_count`, an empty cell must survive generation.
    pub open spec fn max_wall_cells(self) -> int {
        (WALL_COUNT_MAX - 1) as int * (self.max_dim() / 2 - 1)
    }

    /// Runtime form of `valid`.
    pub fn check_valid(&self) -> (ok: bool)
        ensures
            ok == self.valid(),
    {
        MAP_WIDTH_MIN <= self.width && self.width <= MAP_WIDTH_MAX
            && MAP_HEIGHT_MIN <= self.height && self.height <= MAP_HEIGHT_MAX
    }
}

/// One cell of the occupancy grid.
#[derive(Clone, Copy, Debug, PartialEq, Eq, Structural)]
pub enum Cell {
    Empty,
    Wall,
}

/// A 4-way facing direction.
#[derive(Clone, Copy, Debug, PartialEq, Eq, Structural)]
pub enum Facing {
    Up,
    Down,
    Left,
    Right,
}

/// A player coordinate inside a grid, with a facing direction.
#[derive(Clone, Copy, Debug, PartialEq, Eq, Structural)]
pub struct Position {
    pub x: i32,
    pub y: i32,
    pub facing: Facing,
}

impl Position {
    /// The coordinate lies inside a grid of the given size.
    pub open spec fn in_bounds(self, size: MapSize) -> bool {
        &&& 0 <= self.x < size.width
        &&& 0 <= self.y < size.height
    }

    /// Row-major flat index of this coordinate.
    pub open spec fn index(self, size: MapSize) -> int {
        self.y * size.width + self.x
    }
}

/// A dense row-major occupancy grid paired with its size.
#[derive(Debug)]
pub struct OccupancyGrid {
    pub size: MapSize,
    pub cells: Vec<Cell>,
}

impl OccupancyGrid {
    /// The size is within bounds and the cell sequence is exactly
    /// width x height long.
    pub open spec fn wf(self) -> bool {
        &&& self.size.valid()
        &&& self.cells@.len() == self.size.cell_count()
    }

    /// Some cell is still empty.
    pub open spec fn has_empty(self) -> bool {
        exists|i: int| 0 <= i < self.cells@.len() && self.cells@[i] == Cell::Empty
    }

    /// The position is inside the grid and names an empty cell: the
    /// guarantee a freshly generated spawn carries.
    pub open spec fn spawn_ok(self, p: Position) -> bool {
        &&& p.in_bounds(self.size)
        &&& self.cells@[p.index(self.size)] == Cell::Empty
    }

    /// Structural deep copy: the returned grid owns fresh cell storage, so
    /// mutating it never shows through in `self`.
    pub fn deep_copy(&self) -> (r: OccupancyGrid)
        ensures
            r.size == self.size,
            r.cells@ == self.cells@,
    {
        let mut cells: Vec<Cell> = Vec::new();
        let n = self.cells.len();
        let mut i: usize = 0;
        while i < n
            invariant
                i <= n,
                n == self.cells@.len(),
                cells@ == self.cells@.subrange(0, i as int),
            decreases n - i,
        {
            cells.push(self.cells[i]);
            proof {
                assert(cells@ =~= self.cells@.subrange(0, i + 1 as int));
            }
            i = i + 1;
        }
        proof {
            assert(cells@ =~= self.cells@);
        }
        OccupancyGrid { size: self.size, cells }
    }
}

/// Any in-bounds coordinate has a row-major index inside the grid.
pub proof fn lemma_index_in_range(size: MapSize, x: int, y: int)
    requires
        0 < size.width,
        0 < size.height,
        0 <= x < size.width,
        0 <= y < size.height,
    ensures
        0 <= y * size.width + x < size.cell_count(),
{
    assert(0 <= y * size.width + x < size.width * size.height) by (nonlinear_arith)
        requires
            0 <= x < size.width,
            0 <= y < size.height,
    ;
}

/// The cell count of a valid size lies between 100 and 10000, so every
/// flat index fits comfortably in `i32` and `usize`.
pub proof fn lemma_cell_count_bound(size: MapSize)
    requires
        size.valid(),
    ensures
        100 <= size.cell_count() <= 10000,
{
    assert(100 <= size.width * size.height <= 10000) by (nonlinear_arith)
        requires
            10 <= size.width <= 100,
            10 <= size.height <= 100,
    ;
}

/// A flat index splits into in-bounds coordinates by division and
/// remainder, and those coordinates map back to the same index.
pub proof fn lemma_flat_to_coords(size: MapSize, i: int)
    requires
        size.valid(),
        0 <= i < size.cell_count(),
    ensures
        0 <= i % (size.width as int) < size.width,
        0 <= i / (size.width as int) < size.height,
        (i / (size.width as int)) * size.width + (i % (size.width as int)) == i,
{
    let w = size.width as int;
    let h = size.height as int;
    assert((0 <= i % w < w && 0 <= i / w < h && (i / w) * w + (i % w) == i)) by (nonlinear_arith)
        requires
            10 <= w,
            0 <= i < w * h,
    ;
}

/// Number of wall cells in a cell sequence.
pub open spec fn count_walls(s: Seq<Cell>) -> int
    decreases s.len(),
{
    if s.len() == 0 {
        0
    } else {
        count_walls(s.drop_last()) + if s.last() == Cell::Wall {
            1int
        } else {
            0int
        }
    }
}

/// The wall count sits between zero and the sequence length.
pub proof fn lemma_count_walls_bounds(s: Seq<Cell>)
    ensures
        0 <= count_walls(s) <= s.len(),
    decreases s.len(),
{
    if s.len() > 0 {
        lemma_count_walls_bounds(s.drop_last());
    }
}

/// Marking one cell as wall keeps every existing wall, adds at most one,
/// and leaves at least one wall standing.
pub proof fn lemma_count_walls_update(s: Seq<Cell>, i: int)
    requires
        0 <= i < s.len(),
    ensures
        count_walls(s) <= count_walls(s.update(i, Cell::Wall)) <= count_walls(s) + 1,
        count_walls(s.update(i, Cell::Wall)) >= 1,
    decreases s.len(),
{
    let t = s.update(i, Cell::Wall);
    lemma_count_walls_bounds(s.drop_last());
    if i == s.len() - 1 {
        assert(t.drop_last() =~= s.drop_last());
        assert(t.last() == Cell::Wall);
    } else {
        assert(t.drop_last() =~= s.drop_last().update(i, Cell::Wall));
        assert(t.last() == s.last());
        lemma_count_walls_update(s.drop_last(), i);
    }
}

/// A sequence with fewer walls than cells still holds an empty cell.
pub proof fn lemma_some_cell_empty(s: Seq<Cell>)
    requires
        count_walls(s) < s.len(),
    ensures
        exists|i: int| 0 <= i < s.len() && s[i] == Cell::Empty,
    decreases s.len(),
{
    lemma_count_walls_bounds(s);
    if s.last() == Cell::Empty {
        assert(s[s.len() - 1] == Cell::Empty);
    } else {
        lemma_some_cell_empty(s.drop_last());
        let j = choose|j: int| 0 <= j < s.drop_last().len() && s.drop_last()[j] == Cell::Empty;
        assert(s[j] == Cell::Empty);
    }
}

/// Allocate an all-empty grid of the requested size, then carve a random
/// number of wall runs into it. Each run is vertical or horizontal, at
/// least `WALL_LENGTH_MIN` long and shorter than half the perpendicular
/// dimension, and placed so that it fits entirely inside the grid; runs
/// may overlap, and re-marking a wall cell changes nothing.
///
/// Whatever the draws, the carved walls number at least one cell and at
/// most `size.max_wall_cells()`: every outcome keeps an empty cell
/// whenever that bound is below the cell count.
pub fn place_walls<R: RandomSource>(size: MapSize, rng: &mut R) -> (grid: OccupancyGrid)
    requires
        size.valid(),
    ensures
        grid.size == size,
        grid.wf(),
        1 <= count_walls(grid.cells@) <= size.max_wall_cells(),
{
    proof {
        lemma_cell_count_bound(size);
    }
    let w = size.width;
    let h = size.height;
    let ncells: usize = (w * h) as usize;
    let ghost cap = size.max_dim() / 2 - 1;
    let mut cells: Vec<Cell> = Vec::new();
    let mut i: usize = 0;
    while i < ncells
        invariant
            i <= ncells,
            cells@.len() == i,
            count_walls(cells@) == 0,
        decreases ncells - i,
    {
        let ghost before = cells@;
        cells.push(Cell::Empty);
        proof {
            assert(cells@.drop_last() =~= before);
        }
        i = i + 1;
    }

    let nwalls = rng.next_in(WALL_COUNT_MIN, WALL_COUNT_MAX);
    let mut wall: i32 = 0;
    while wall < nwalls
        invariant
            size.valid(),
            w == size.width,
            h == size.height,
            cap == size.max_dim() / 2 - 1,
            cells@.len() == size.cell_count(),
            0 <= wall <= nwalls,
            count_walls(cells@) <= wall as int * cap,
            wall > 0 ==> count_walls(cells@) >= 1,
        decreases nwalls - wall,
    {
        let ghost cw0 = count_walls(cells@);
        let vertical = rng.next_in(0, 2) == 0;
        let len: i32;
        if vertical {
            len = rng.next_in(WALL_LENGTH_MIN, h / 2);
            proof {
                lemma_div_is_ordered(h as int, size.max_dim(), 2);
            }
            let x = rng.next_in(0, w);
            let y = rng.next_in(0, h - len);
            let mut k: i32 = 0;
            while k < len
                invariant
                    size.valid(),
                    w == size.width,
                    h == size.height,
                    cells@.len() == size.cell_count(),
                    0 <= x < w,
                    0 <= y,
                    y + len <= h,
                    0 <= k <= len,
                    cw0 <= count_walls(cells@) <= cw0 + k,
                    k > 0 ==> count_walls(cells@) >= 1,
                decreases len - k,
            {
                proof {
                    lemma_index_in_range(size, x as int, (y + k) as int);
                    lemma_cell_count_bound(size);
                }
                let idx: usize = ((y + k) * w + x) as usize;
                let ghost before = cells@;
                cells.set(idx, Cell::Wall);
                proof {
                    lemma_count_walls_update(before, idx as int);
                }
                k = k + 1;
            }
        } else {
            len = rng.next_in(WALL_LENGTH_MIN, w / 2);
            proof {
                lemma_div_is_ordered(w as int, size.max_dim(), 2);
            }
            let x = rng.next_in(0, w - len);
            let y = rng.next_in(0, h);
            let mut k: i32 = 0;
            while k < len
                invariant
                    size.valid(),
                    w == size.width,
                    h == size.height,
                    cells@.len() == size.cell_count(),
                    0 <= x,
                    x + len <= w,
                    0 <= y < h,
                    0 <= k <= len,
                    cw0 <= count_walls(cells@) <= cw0 + k,
                    k > 0 ==> count_walls(cells@) >= 1,
                decreases len - k,
            {
                proof {
                    lemma_index_in_range(size, (x + k) as int, y as int);
                    lemma_cell_count_bound(size);
                }
                let idx: usize = (y * w + x + k) as usize;
                let ghost before = cells@;
                cells.set(idx, Cell::Wall);
                proof {
                    lemma_count_walls_update(before, idx as int);
                }
                k = k + 1;
            }
        }
        proof {
            assert((wall as int + 1) * cap == wall as int * cap + cap) by (nonlinear_arith);
        }
        wall = wall + 1;
    }
    proof {
        assert(nwalls as int * cap <= (WALL_COUNT_MAX - 1) as int * cap) by (nonlinear_arith)
            requires
                nwalls as int <= (WALL_COUNT_MAX - 1) as int,
                cap >= 0,
        ;
    }
    OccupancyGrid { size, cells }
}

/// Pick a spawn position on an empty cell: first by bounded random
/// probing (one attempt per cell), then, if every probe hit a wall, by a
/// deterministic row-major scan. Fails with `DegenerateMap` exactly when
/// the grid has no empty cell left, so the function never loops forever.
pub fn find_spawn<R: RandomSource>(grid: &OccupancyGrid, rng: &mut R) -> (res: Result<
    Position,
    GameError,
>)
    requires
        grid.wf(),
    ensures
        match res {
            Ok(p) => grid.spawn_ok(p) && p.facing == Facing::Down,
            Err(e) => e == GameError::DegenerateMap && !grid.has_empty(),
        },
        grid.has_empty() ==> res is Ok,
{
    proof {
        lemma_cell_count_bound(grid.size);
    }
    let w = grid.size.width;
    let h = grid.size.height;
    let cap: i32 = w * h;
    let mut attempt: i32 = 0;
    while attempt < cap
        invariant
            grid.wf(),
            w == grid.size.width,
            h == grid.size.height,
        decreases cap - attempt,
    {
        let x = rng.next_in(0, w);
        let y = rng.next_in(0, h);
        proof {
            lemma_index_in_range(grid.size, x as int, y as int);
            lemma_cell_count_bound(grid.size);
        }
        let idx: usize = (y * w + x) as usize;
        if grid.cells[idx] == Cell::Empty {
            return Ok(Position { x, y, facing: Facing::Down });
        }
        attempt = attempt + 1;
    }

    let n = grid.cells.len();
    let mut i: usize = 0;
    while i < n
        invariant
            grid.wf(),
            w == grid.size.width,
            h == grid.size.height,
            n == grid.cells@.len(),
            i <= n,
            forall|j: int| 0 <= j < i ==> grid.cells@[j] == Cell::Wall,
        decreases n - i,
    {
        if grid.cells[i] == Cell::Empty {
            proof {
                lemma_cell_count_bound(grid.size);
                lemma_flat_to_coords(grid.size, i as int);
            }
            let xi: i32 = (i as i32) % w;
            let yi: i32 = (i as i32) / w;
            return Ok(Position { x: xi, y: yi, facing: Facing::Down });
        }
        i = i + 1;
    }
    assert(!grid.has_empty());
    Err(GameError::DegenerateMap)
}

/// The world generator: validate the requested size before consuming any
/// randomness, carve random walls into a fresh grid, and pick a spawn on
/// an empty cell, facing down.
///
/// Success is owed whenever the walls cannot cover the grid: for every
/// valid size whose `max_wall_cells` bound stays below the cell count
/// (20x20 and larger square maps among them), the result is `Ok`.
pub fn generate<R: RandomSource>(size: MapSize, rng: &mut R) -> (res: Result<
    (OccupancyGrid, Position),
    GameError,
>)
    ensures
        !size.valid() ==> res == Err::<(OccupancyGrid, Position), GameError>(GameError::InvalidSize),
        !size.valid() ==> *final(rng) == *old(rng),
        size.valid() ==> match res {
            Ok(pair) => pair.0.wf() && pair.0.size == size && pair.0.spawn_ok(pair.1)
                && pair.1.facing == Facing::Down,
            Err(e) => e == GameError::DegenerateMap,
        },
        size.valid() && size.max_wall_cells() < size.cell_count() ==> res is Ok,
{
    if !size.check_valid() {
        return Err(GameError::InvalidSize);
    }
    let grid = place_walls(size, rng);
    match find_spawn(&grid, rng) {
        Ok(p) => Ok((grid, p)),
        Err(e) => {
            proof {
                if size.max_wall_cells() < size.cell_count() {
                    lemma_some_cell_empty(grid.cells@);
                    assert(grid.has_empty());
                }
            }
            Err(e)
        },
    }
}

} // verus!
