//! Building the static tiles of a level from its grid of cells.

use vstd::prelude::*;
use crate::geometry::Position;
use crate::entities::{CellKind, Tile, TILE_SIZE};

verus! {

/// The largest number of rows, and of cells in a row, of a level grid: the
/// corner of every cell of such a grid fits in an `i32`.
pub const MAX_GRID_SIDE: usize = 67_108_864;

/// Whether a cell of this kind stops what moves.
pub open spec fn is_solid(kind: CellKind) -> bool {
    kind == CellKind::SolidA || kind == CellKind::SolidB
}

/// The kind that a number of the level data stands for: 1 and 2 are the two
/// solid kinds, 4 is decorative, every other number is an empty cell.
pub open spec fn kind_of_code(code: u8) -> CellKind {
    if code == 1 {
        CellKind::SolidA
    } else if code == 2 {
        CellKind::SolidB
    } else if code == 4 {
        CellKind::Decorative
    } else {
        CellKind::Empty
    }
}

/// The tile of the cell in column `column` of row `row`, if the cell is not
/// empty. Cells are `TILE_SIZE` wide and high, and the grid's first cell has
/// its corner at the origin.
pub open spec fn cell_tile(kind: CellKind, column: int, row: int) -> Option<Tile> {
    if kind == CellKind::Empty {
        None
    } else {
        Some(
            Tile {
                kind,
                position: Position { x: (column * TILE_SIZE) as i32, y: (row * TILE_SIZE) as i32 },
                collidable: is_solid(kind),
            },
        )
    }
}

/// The tiles of the cells of one row, from the first column on.
pub open spec fn row_tiles(cells: Seq<CellKind>, row: int) -> Seq<Tile>
    decreases cells.len(),
{
    if cells.len() == 0 {
        Seq::empty()
    } else {
        let before = row_tiles(cells.drop_last(), row);
        match cell_tile(cells.last(), cells.len() - 1, row) {
            Some(tile) => before.push(tile),
            None => before,
        }
    }
}

/// The tiles of a grid: those of its first row, then those of the second,
/// and so on.
pub open spec fn grid_tiles(rows: Seq<Seq<CellKind>>) -> Seq<Tile>
    decreases rows.len(),
{
    if rows.len() == 0 {
        Seq::empty()
    } else {
        grid_tiles(rows.drop_last()) + row_tiles(rows.last(), rows.len() - 1)
    }
}

/// The rows of a grid, each as a sequence of cells.
pub open spec fn rows_of(grid: Seq<Vec<CellKind>>) -> Seq<Seq<CellKind>> {
    grid.map_values(|row: Vec<CellKind>| row@)
}

/// Whether the grid is small enough for every cell's corner to fit in an
/// `i32`.
pub open spec fn grid_fits(rows: Seq<Seq<CellKind>>) -> bool {
    &&& rows.len() <= MAX_GRID_SIDE
    &&& forall|r: int| 0 <= r < rows.len() ==> (#[trigger] rows[r]).len() <= MAX_GRID_SIDE
}

impl CellKind {
    /// Reads a number of the level data as a cell kind.
    pub fn from_code(code: u8) -> (kind: CellKind)
        ensures
            kind == kind_of_code(code),
    {
        if code == 1 {
            CellKind::SolidA
        } else if code == 2 {
            CellKind::SolidB
        } else if code == 4 {
            CellKind::Decorative
        } else {
            CellKind::Empty
        }
    }

    /// Whether a cell of this kind stops what moves.
    pub fn collidable(self) -> (solid: bool)
        ensures
            solid == is_solid(self),
    {
        match self {
            CellKind::SolidA | CellKind::SolidB => true,
            CellKind::Empty | CellKind::Decorative => false,
        }
    }
}

/// Whether `load_tiles` accepts the grid.
pub fn level_fits(grid: &Vec<Vec<CellKind>>) -> (fits: bool)
    ensures
        fits == grid_fits(rows_of(grid@)),
{
    if grid.len() > MAX_GRID_SIDE {
        return false;
    }
    let mut r: usize = 0;
    while r < grid.len()
        invariant
            r <= grid.len(),
            grid@.len() <= MAX_GRID_SIDE,
            forall|k: int| 0 <= k < r ==> (#[trigger] rows_of(grid@)[k]).len() <= MAX_GRID_SIDE,
        decreases grid.len() - r,
    {
        if grid[r].len() > MAX_GRID_SIDE {
            assert(rows_of(grid@)[r as int].len() > MAX_GRID_SIDE);
            return false;
        }
        r += 1;
    }
    true
}

/// Builds the tiles of a level, row by row: one tile for each cell that is
/// not empty, at the cell's place in the grid.
pub fn load_tiles(grid: &Vec<Vec<CellKind>>) -> (tiles: Vec<Tile>)
    requires
        grid_fits(rows_of(grid@)),
    ensures
        tiles@ == grid_tiles(rows_of(grid@)),
{
    let ghost rows = rows_of(grid@);
    let mut tiles: Vec<Tile> = Vec::new();
    let mut r: usize = 0;
    while r < grid.len()
        invariant
            r <= grid.len(),
            rows == rows_of(grid@),
            grid_fits(rows),
            tiles@ == grid_tiles(rows.take(r as int)),
        decreases grid.len() - r,
    {
        let cells = &grid[r];
        let ghost done = tiles@;
        assert(cells@ == rows[r as int]);
        let mut c: usize = 0;
        while c < cells.len()
            invariant
                c <= cells.len(),
                r < MAX_GRID_SIDE,
                cells@.len() <= MAX_GRID_SIDE,
                tiles@ == done + row_tiles(cells@.take(c as int), r as int),
            decreases cells.len() - c,
        {
            let kind = cells[c];
            proof {
                assert(cells@.take(c + 1).drop_last() =~= cells@.take(c as int));
            }
            match kind {
                CellKind::Empty => {},
                _ => {
                    let x: i32 = (c as i32) * TILE_SIZE;
                    let y: i32 = (r as i32) * TILE_SIZE;
                    tiles.push(Tile::new(kind, Position { x, y }, kind.collidable()));
                },
            }
            c += 1;
        }
        proof {
            assert(cells@.take(c as int) =~= cells@);
            assert(rows.take(r + 1).drop_last() =~= rows.take(r as int));
        }
        r += 1;
    }
    proof {
        assert(rows.take(r as int) =~= rows);
    }
    tiles
}

} // verus!
