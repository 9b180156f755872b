use vstd::prelude::*;

verus! {

/// One cell of the simulation: its state and the grid position it occupies.
#[derive(Clone, Copy, Debug, PartialEq, Eq, Structural)]
pub struct Cell {
    pub alive: bool,
    pub x: usize,
    pub y: usize,
}

/// The single failure a grid can raise: construction with a zero extent.
#[derive(Clone, Copy, Debug, PartialEq, Eq, Structural)]
pub enum GridError {
    InvalidDimensions,
}

/// The transition rule: a dead cell comes alive on exactly three live
/// neighbors; a live cell survives on two or three, and dies otherwise.
pub open spec fn rule(alive: bool, neighbors: int) -> bool {
    if alive {
        neighbors == 2 || neighbors == 3
    } else {
        neighbors == 3
    }
}

/// A rectangular matrix of cells with fixed dimensions. Row `y` of `cells`
/// holds the cells whose `y` coordinate is `y`, in order of `x`.
pub struct Grid {
    pub cells: Vec<Vec<Cell>>,
    pub columns: usize,
    pub rows: usize,
}

impl Grid {
    /// Well-formed: at least one column and one row, a rectangular matrix of
    /// exactly `rows` by `columns` cells, and every cell carries the position
    /// at which it is stored.
    pub open spec fn wf(&self) -> bool {
        &&& 1 <= self.columns
        &&& 1 <= self.rows
        &&& self.cells@.len() == self.rows
        &&& forall|y: int| 0 <= y < self.rows ==> (#[trigger] self.cells@[y])@.len() == self.columns
        &&& forall|y: int, x: int|
            0 <= y < self.rows && 0 <= x < self.columns ==> (#[trigger] self.cells@[y]@[x]).x == x
                && self.cells@[y]@[x].y == y
    }

    /// Whether the cell at `(x, y)` is alive; every position outside the grid
    /// counts as dead.
    pub open spec fn alive_at(&self, x: int, y: int) -> bool {
        &&& 0 <= y < self.cells@.len()
        &&& 0 <= x < self.cells@[y]@.len()
        &&& self.cells@[y]@[x].alive
    }

    /// 1 if `(x, y)` holds a live cell, else 0.
    pub open spec fn occ(&self, x: int, y: int) -> int {
        if self.alive_at(x, y) {
            1
        } else {
            0
        }
    }

    /// The number of live cells among the up-to-eight grid-adjacent positions
    /// of `(x, y)` that lie inside the grid. Positions beyond the border are
    /// omitted from the count: edges are hard boundaries, never wrapped.
    pub open spec fn live_neighbors(&self, x: int, y: int) -> int {
        self.occ(x - 1, y - 1) + self.occ(x, y - 1) + self.occ(x + 1, y - 1) + self.occ(x - 1, y)
            + self.occ(x + 1, y) + self.occ(x - 1, y + 1) + self.occ(x, y + 1) + self.occ(
            x + 1,
            y + 1,
        )
    }

    /// Equal dimensions and the same live set at every position.
    pub open spec fn same_states(&self, other: &Grid) -> bool {
        &&& self.columns == other.columns
        &&& self.rows == other.rows
        &&& forall|x: int, y: int| #[trigger] self.alive_at(x, y) == other.alive_at(x, y)
    }

    /// `self` is the generation that follows `prev`: equal dimensions, and
    /// every position obeys the transition rule applied to `prev`.
    pub open spec fn is_next_of(&self, prev: &Grid) -> bool {
        &&& self.columns == prev.columns
        &&& self.rows == prev.rows
        &&& forall|x: int, y: int|
            0 <= x < prev.columns && 0 <= y < prev.rows ==> #[trigger] self.alive_at(x, y) == rule(
                prev.alive_at(x, y),
                prev.live_neighbors(x, y),
            )
    }

    /// Count the live neighbors of `(x, y)`, reading only in-bounds positions.
    pub fn count_live_neighbors(&self, x: usize, y: usize) -> (n: u8)
        requires
            self.wf(),
            x < self.columns,
            y < self.rows,
        ensures
            n as int == self.live_neighbors(x as int, y as int),
    {
        let mut n: u8 = 0;
        if y > 0 {
            if x > 0 && self.cells[y - 1][x - 1].alive {
                n = n + 1;
            }
            if self.cells[y - 1][x].alive {
                n = n + 1;
            }
            if x + 1 < self.columns && self.cells[y - 1][x + 1].alive {
                n = n + 1;
            }
        }
        if x > 0 && self.cells[y][x - 1].alive {
            n = n + 1;
        }
        if x + 1 < self.columns && self.cells[y][x + 1].alive {
            n = n + 1;
        }
        if y + 1 < self.rows {
            if x > 0 && self.cells[y + 1][x - 1].alive {
                n = n + 1;
            }
            if self.cells[y + 1][x].alive {
                n = n + 1;
            }
            if x + 1 < self.columns && self.cells[y + 1][x + 1].alive {
                n = n + 1;
            }
        }
        n
    }

    /// Compute the next generation. The result is a fresh matrix read entirely
    /// from `self`, so no cell of the new generation ever sees a partially
    /// updated neighborhood.
    pub fn next_generation(&self) -> (r: Grid)
        requires
            self.wf(),
        ensures
            r.wf(),
            r.is_next_of(self),
    {
        let mut new_rows: Vec<Vec<Cell>> = Vec::new();
        let mut y: usize = 0;
        while y < self.rows
            invariant
                self.wf(),
                y <= self.rows,
                new_rows@.len() == y,
                forall|j: int| 0 <= j < y ==> (#[trigger] new_rows@[j])@.len() == self.columns,
                forall|j: int, i: int|
                    0 <= j < y && 0 <= i < self.columns ==> (#[trigger] new_rows@[j]@[i]).x == i
                        && new_rows@[j]@[i].y == j && new_rows@[j]@[i].alive == rule(
                        self.alive_at(i, j),
                        self.live_neighbors(i, j),
                    ),
            decreases self.rows - y,
        {
            let mut row: Vec<Cell> = Vec::new();
            let mut x: usize = 0;
            while x < self.columns
                invariant
                    self.wf(),
                    y < self.rows,
                    x <= self.columns,
                    row@.len() == x,
                    forall|i: int|
                        0 <= i < x ==> (#[trigger] row@[i]).x == i && row@[i].y == y
                            && row@[i].alive == rule(
                            self.alive_at(i, y as int),
                            self.live_neighbors(i, y as int),
                        ),
                decreases self.columns - x,
            {
                let n = self.count_live_neighbors(x, y);
                let alive_now = self.cells[y][x].alive;
                let next_alive = if alive_now {
                    n == 2 || n == 3
                } else {
                    n == 3
                };
                row.push(Cell { alive: next_alive, x, y });
                x = x + 1;
            }
            new_rows.push(row);
            y = y + 1;
        }
        Grid { cells: new_rows, columns: self.columns, rows: self.rows }
    }

    /// Build a grid from an explicit row-major fill, cell `(x, y)` taking the
    /// state at index `y * columns + x`. This is the injectable counterpart of
    /// `initialize`: handing it a fixed fill gives a fully determined grid.
    pub fn from_fill(columns: usize, rows: usize, fill: &Vec<bool>) -> (r: Result<Grid, GridError>)
        ensures
            r is Ok <==> (1 <= columns && 1 <= rows && fill@.len() == columns * rows),
            r matches Ok(g) ==> g.wf() && g.columns == columns && g.rows == rows,
            r matches Ok(g) ==> forall|x: int, y: int|
                0 <= x < columns && 0 <= y < rows ==> #[trigger] g.alive_at(x, y) == fill@[y
                    * columns + x],
            r is Err ==> r == Result::<Grid, GridError>::Err(GridError::InvalidDimensions),
    {
        if columns == 0 || rows == 0 {
            return Err(GridError::InvalidDimensions);
        }
        proof {
            assert((columns as u128) * (rows as u128) <= 0xFFFF_FFFF_FFFF_FFFFu128
                * 0xFFFF_FFFF_FFFF_FFFFu128) by (nonlinear_arith)
                requires
                    (columns as u128) <= 0xFFFF_FFFF_FFFF_FFFFu128,
                    (rows as u128) <= 0xFFFF_FFFF_FFFF_FFFFu128,
            ;
        }
        if (fill.len() as u128) != (columns as u128) * (rows as u128) {
            proof {
                assert(fill@.len() != columns * rows) by (nonlinear_arith)
                    requires
                        (fill@.len() as u128) != (columns as u128) * (rows as u128),
                        fill@.len() <= usize::MAX,
                        columns <= usize::MAX,
                        rows <= usize::MAX,
                ;
            }
            return Err(GridError::InvalidDimensions);
        }
        let mut new_rows: Vec<Vec<Cell>> = Vec::new();
        let mut y: usize = 0;
        while y < rows
            invariant
                1 <= columns,
                1 <= rows,
                fill@.len() == columns * rows,
                fill@.len() <= usize::MAX,
                y <= rows,
                new_rows@.len() == y,
                forall|j: int| 0 <= j < y ==> (#[trigger] new_rows@[j])@.len() == columns,
                forall|j: int, i: int|
                    0 <= j < y && 0 <= i < columns ==> (#[trigger] new_rows@[j]@[i]).x == i
                        && new_rows@[j]@[i].y == j && new_rows@[j]@[i].alive == fill@[j * columns
                        + i],
            decreases rows - y,
        {
            let mut row: Vec<Cell> = Vec::new();
            let mut x: usize = 0;
            while x < columns
                invariant
                    1 <= columns,
                    1 <= rows,
                    fill@.len() == columns * rows,
                    fill@.len() <= usize::MAX,
                    y < rows,
                    x <= columns,
                    row@.len() == x,
                    forall|i: int|
                        0 <= i < x ==> (#[trigger] row@[i]).x == i && row@[i].y == y
                            && row@[i].alive == fill@[y * columns + i],
                decreases columns - x,
            {
                proof {
                    assert(0 <= (y as int) * (columns as int) && (y as int) * (columns as int) + (
                    x as int) < (columns as int) * (rows as int)) by (nonlinear_arith)
                        requires
                            0 <= (y as int) < (rows as int),
                            0 <= (x as int) < (columns as int),
                    ;
                }
                let idx: usize = y * columns + x;
                row.push(Cell { alive: fill[idx], x, y });
                x = x + 1;
            }
            new_rows.push(row);
            y = y + 1;
        }
        Ok(Grid { cells: new_rows, columns, rows })
    }

    /// Allocate a `columns` by `rows` grid whose cells are each set alive
    /// with probability one half, independently. Zero extents are rejected;
    /// no other input can fail.
    pub fn initialize(columns: usize, rows: usize) -> (r: Result<Grid, GridError>)
        ensures
            r is Ok <==> (1 <= columns && 1 <= rows),
            r matches Ok(g) ==> g.wf() && g.columns == columns && g.rows == rows,
            r is Err ==> r == Result::<Grid, GridError>::Err(GridError::InvalidDimensions),
    {
        if columns == 0 || rows == 0 {
            return Err(GridError::InvalidDimensions);
        }
        let mut new_rows: Vec<Vec<Cell>> = Vec::new();
        let mut y: usize = 0;
        while y < rows
            invariant
                1 <= columns,
                1 <= rows,
                y <= rows,
                new_rows@.len() == y,
                forall|j: int| 0 <= j < y ==> (#[trigger] new_rows@[j])@.len() == columns,
                forall|j: int, i: int|
                    0 <= j < y && 0 <= i < columns ==> (#[trigger] new_rows@[j]@[i]).x == i
                        && new_rows@[j]@[i].y == j,
            decreases rows - y,
        {
            let mut row: Vec<Cell> = Vec::new();
            let mut x: usize = 0;
            while x < columns
                invariant
                    y < rows,
                    x <= columns,
                    row@.len() == x,
                    forall|i: int| 0 <= i < x ==> (#[trigger] row@[i]).x == i && row@[i].y == y,
                decreases columns - x,
            {
                row.push(Cell { alive: random_cell_state(), x, y });
                x = x + 1;
            }
            new_rows.push(row);
            y = y + 1;
        }
        Ok(Grid { cells: new_rows, columns, rows })
    }

    /// Copy the grid: a fresh matrix with the same dimensions and states,
    /// leaving `self` untouched.
    pub fn snapshot(&self) -> (r: Grid)
        requires
            self.wf(),
        ensures
            r.wf(),
            r.same_states(self),
    {
        let mut new_rows: Vec<Vec<Cell>> = Vec::new();
        let mut y: usize = 0;
        while y < self.rows
            invariant
                self.wf(),
                y <= self.rows,
                new_rows@.len() == y,
                forall|j: int| 0 <= j < y ==> (#[trigger] new_rows@[j])@.len() == self.columns,
                forall|j: int, i: int|
                    0 <= j < y && 0 <= i < self.columns ==> (#[trigger] new_rows@[j]@[i])
                        == self.cells@[j]@[i],
            decreases self.rows - y,
        {
            let mut row: Vec<Cell> = Vec::new();
            let mut x: usize = 0;
            while x < self.columns
                invariant
                    self.wf(),
                    y < self.rows,
                    x <= self.columns,
                    row@.len() == x,
                    forall|i: int|
                        0 <= i < x ==> (#[trigger] row@[i]) == self.cells@[y as int]@[i],
                decreases self.columns - x,
            {
                let c = self.cells[y][x];
                row.push(c);
                x = x + 1;
            }
            new_rows.push(row);
            y = y + 1;
        }
        Grid { cells: new_rows, columns: self.columns, rows: self.rows }
    }
}

/// The number of cells stored in the first `n` rows of the grid.
pub open spec fn cells_in_rows(g: &Grid, n: int) -> int
    decreases n,
{
    if n <= 0 {
        0
    } else {
        cells_in_rows(g, n - 1) + g.cells@[n - 1]@.len()
    }
}

/// The total number of cells the grid stores, over all rows.
pub open spec fn total_cells(g: &Grid) -> int {
    cells_in_rows(g, g.cells@.len() as int)
}

proof fn lemma_cells_in_rows(g: &Grid, n: int)
    requires
        g.wf(),
        0 <= n <= g.rows,
    ensures
        cells_in_rows(g, n) == n * g.columns,
    decreases n,
{
    if n > 0 {
        lemma_cells_in_rows(g, n - 1);
        assert(g.cells@[n - 1]@.len() == g.columns);
        assert(cells_in_rows(g, n) == cells_in_rows(g, n - 1) + g.columns);
        assert((n - 1) * (g.columns as int) + (g.columns as int) == n * (g.columns as int))
            by (nonlinear_arith);
    } else {
        assert(cells_in_rows(g, 0) == 0);
    }
}

/// A well-formed grid holds exactly `rows * columns` cells, and no two
/// storage positions hold the same cell: cells at distinct positions differ,
/// since each carries its own coordinates.
pub proof fn lemma_grid_cell_count(g: &Grid)
    requires
        g.wf(),
    ensures
        total_cells(g) == (g.rows as int) * (g.columns as int),
        forall|x1: int, y1: int, x2: int, y2: int|
            0 <= x1 < g.columns && 0 <= y1 < g.rows && 0 <= x2 < g.columns && 0 <= y2 < g.rows && (
            x1 != x2 || y1 != y2) ==> #[trigger] g.cells@[y1]@[x1] != #[trigger] g.cells@[y2]@[x2],
{
    lemma_cells_in_rows(g, g.rows as int);
}

/// No position of the grid holds a live cell.
pub open spec fn all_dead(g: &Grid) -> bool {
    forall|x: int, y: int| !(#[trigger] g.alive_at(x, y))
}

/// Stillness: the rule creates no life from nothing, so a generation computed
/// from an all-dead grid of any size is all dead again and has the same state
/// at every position as its predecessor.
pub proof fn lemma_stillness(g: &Grid, r: &Grid)
    requires
        g.wf(),
        r.wf(),
        all_dead(g),
        r.is_next_of(g),
    ensures
        all_dead(r),
        r.same_states(g),
{
    assert forall|x: int, y: int| !(#[trigger] r.alive_at(x, y)) by {
        if 0 <= x < g.columns && 0 <= y < g.rows {
            assert(g.live_neighbors(x, y) == 0);
            assert(r.alive_at(x, y) == rule(g.alive_at(x, y), g.live_neighbors(x, y)));
        } else {
            assert(!r.alive_at(x, y));
        }
    }
}

/// The corner cell `(0, 0)` has exactly three grid-adjacent positions; its
/// neighbor count reads those three and nothing else, wrapped positions in
/// particular contributing nothing.
pub proof fn lemma_corner_neighbor_count(g: &Grid)
    requires
        g.wf(),
    ensures
        g.live_neighbors(0, 0) == g.occ(1, 0) + g.occ(0, 1) + g.occ(1, 1),
{
}

/// Relies on rand 0.8's `rand::random::<bool>`: one draw from the thread-local
/// generator, each outcome with probability one half. Nothing is promised of
/// the value; callers treat either outcome alike.
#[verifier::external_body]
fn random_cell_state() -> bool {
    rand::random::<bool>()
}

} // verus!
