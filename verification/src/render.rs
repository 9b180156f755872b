use vstd::prelude::*;
use vstd::arithmetic::div_mod::lemma_fundamental_div_mod_converse;
use crate::grid::Grid;

verus! {

/// Pixel distance between the top-left corners of two adjacent cell
/// rectangles; also the margin before the first cell.
pub const CELL_SIZE: i32 = 4;

/// One draw command: fill the rectangle with the alive color or the dead
/// color. A full frame is one such command per cell, in row-major order.
#[derive(Clone, Copy, Debug, PartialEq, Eq, Structural)]
pub struct CellDraw {
    pub left: i32,
    pub top: i32,
    pub right: i32,
    pub bottom: i32,
    pub alive: bool,
}

/// The command at row-major index `k` draws the cell at column `k % columns`,
/// row `k / columns`: the fixed-size rectangle at that grid position, styled
/// by the cell's state.
pub open spec fn draws_cell(c: CellDraw, g: &Grid, k: int) -> bool {
    let x = k % (g.columns as int);
    let y = k / (g.columns as int);
    &&& c.left == CELL_SIZE + CELL_SIZE * x
    &&& c.top == CELL_SIZE + CELL_SIZE * y
    &&& c.right == 2 * CELL_SIZE + CELL_SIZE * x
    &&& c.bottom == 2 * CELL_SIZE + CELL_SIZE * y
    &&& c.alive == g.alive_at(x, y)
}

/// `cmds` is a full rendering of `g`: one command per cell, each drawing its
/// own cell.
pub open spec fn is_render_of(cmds: Seq<CellDraw>, g: &Grid) -> bool {
    &&& cmds.len() == (g.rows as int) * (g.columns as int)
    &&& forall|k: int| 0 <= k < cmds.len() ==> draws_cell(#[trigger] cmds[k], g, k)
}

/// Translate the grid into one draw command per cell, row-major. The renderer
/// is a pure reader: it takes the grid by shared reference and its output is a
/// function of the grid alone.
pub fn render(grid: &Grid) -> (cmds: Vec<CellDraw>)
    requires
        grid.wf(),
        4 * (grid.columns as int) + 8 <= i32::MAX,
        4 * (grid.rows as int) + 8 <= i32::MAX,
        (grid.rows as int) * (grid.columns as int) <= usize::MAX,
    ensures
        is_render_of(cmds@, grid),
{
    let mut cmds: Vec<CellDraw> = Vec::new();
    let mut y: usize = 0;
    while y < grid.rows
        invariant
            grid.wf(),
            4 * (grid.columns as int) + 8 <= i32::MAX,
            4 * (grid.rows as int) + 8 <= i32::MAX,
            (grid.rows as int) * (grid.columns as int) <= usize::MAX,
            y <= grid.rows,
            cmds@.len() == (y as int) * (grid.columns as int),
            forall|k: int| 0 <= k < cmds@.len() ==> draws_cell(#[trigger] cmds@[k], grid, k),
        decreases grid.rows - y,
    {
        let mut x: usize = 0;
        while x < grid.columns
            invariant
                grid.wf(),
                4 * (grid.columns as int) + 8 <= i32::MAX,
                4 * (grid.rows as int) + 8 <= i32::MAX,
                (grid.rows as int) * (grid.columns as int) <= usize::MAX,
                y < grid.rows,
                x <= grid.columns,
                cmds@.len() == (y as int) * (grid.columns as int) + x,
                forall|k: int| 0 <= k < cmds@.len() ==> draws_cell(#[trigger] cmds@[k], grid, k),
            decreases grid.columns - x,
        {
            proof {
                let c = grid.columns as int;
                assert(0 <= (y as int) * c && (y as int) * c + (x as int) < (grid.rows as int)
                    * c) by (nonlinear_arith)
                    requires
                        0 <= (x as int) < c,
                        0 <= (y as int) < (grid.rows as int),
                ;
                lemma_fundamental_div_mod_converse(
                    (y as int) * c + (x as int),
                    c,
                    y as int,
                    x as int,
                );
            }
            let xi: i32 = x as i32;
            let yi: i32 = y as i32;
            let cmd = CellDraw {
                left: CELL_SIZE + CELL_SIZE * xi,
                top: CELL_SIZE + CELL_SIZE * yi,
                right: 2 * CELL_SIZE + CELL_SIZE * xi,
                bottom: 2 * CELL_SIZE + CELL_SIZE * yi,
                alive: grid.cells[y][x].alive,
            };
            cmds.push(cmd);
            x = x + 1;
        }
        proof {
            assert(((y as int) + 1) * (grid.columns as int) == (y as int) * (grid.columns as int)
                + (grid.columns as int)) by (nonlinear_arith);
        }
        y = y + 1;
    }
    cmds
}

/// Rendering is deterministic: any two full renderings of one grid are the
/// same sequence of draw commands. The renderer keeps no hidden state, so a
/// second call draws exactly what the first did.
pub proof fn lemma_render_deterministic(g: &Grid, a: Seq<CellDraw>, b: Seq<CellDraw>)
    requires
        is_render_of(a, g),
        is_render_of(b, g),
    ensures
        a == b,
{
    assert forall|k: int| 0 <= k < a.len() implies a[k] == b[k] by {
        assert(draws_cell(a[k], g, k));
        assert(draws_cell(b[k], g, k));
    }
    assert(a =~= b);
}

/// In a full rendering, the command for cell `(x, y)` stands at row-major
/// index `y * columns + x` and draws that cell: its rectangle sits at the
/// position given by the grid coordinates times the cell size, and its style
/// is the cell's state.
pub proof fn lemma_render_row_major(g: &Grid, cmds: Seq<CellDraw>, x: int, y: int)
    requires
        g.wf(),
        is_render_of(cmds, g),
        0 <= x < g.columns,
        0 <= y < g.rows,
    ensures
        0 <= y * (g.columns as int) + x < cmds.len(),
        draws_cell(cmds[y * (g.columns as int) + x], g, y * (g.columns as int) + x),
        cmds[y * (g.columns as int) + x].alive == g.alive_at(x, y),
{
    let c = g.columns as int;
    let k = y * c + x;
    assert(0 <= k && k < (g.rows as int) * c) by (nonlinear_arith)
        requires
            k == y * c + x,
            0 <= x < c,
            0 <= y < (g.rows as int),
    ;
    lemma_fundamental_div_mod_converse(k, c, y, x);
}

} // verus!
