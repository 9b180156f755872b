use game_of_life::clock::generations_per_second;
use game_of_life::coordinator::{Coordinator, SurfaceSize};
use game_of_life::grid::{Grid, GridError};
use game_of_life::render::{render, CellDraw};
use game_of_life::state::SimulationState;

/// Build a grid with the given live cells, everything else dead.
fn grid_with_live(columns: usize, rows: usize, live: &[(usize, usize)]) -> Grid {
    let mut fill = vec![false; columns * rows];
    for &(x, y) in live {
        fill[y * columns + x] = true;
    }
    Grid::from_fill(columns, rows, &fill).unwrap()
}

/// Collect the live positions of a grid.
fn live_cells(g: &Grid) -> Vec<(usize, usize)> {
    let mut live = Vec::new();
    for y in 0..g.rows {
        for x in 0..g.columns {
            if g.cells[y][x].alive {
                live.push((x, y));
            }
        }
    }
    live
}

#[test]
fn initialize_shape_and_positions() {
    let g = Grid::initialize(10, 5).unwrap();
    assert_eq!(g.columns, 10);
    assert_eq!(g.rows, 5);
    assert_eq!(g.cells.len(), 5);
    let mut total = 0;
    for y in 0..5 {
        assert_eq!(g.cells[y].len(), 10);
        for x in 0..10 {
            assert_eq!(g.cells[y][x].x, x);
            assert_eq!(g.cells[y][x].y, y);
            total += 1;
        }
    }
    assert_eq!(total, 10 * 5);
    // No duplicate positions: each cell names its own coordinates.
    assert_ne!(
        (g.cells[0][1].x, g.cells[0][1].y),
        (g.cells[1][0].x, g.cells[1][0].y)
    );
}

#[test]
fn initialize_rejects_zero_extents() {
    assert!(matches!(Grid::initialize(0, 5), Err(GridError::InvalidDimensions)));
    assert!(matches!(Grid::initialize(5, 0), Err(GridError::InvalidDimensions)));
    assert!(matches!(Grid::initialize(0, 0), Err(GridError::InvalidDimensions)));
}

#[test]
fn from_fill_rejects_wrong_length() {
    let fill = vec![true, false, true];
    assert!(matches!(
        Grid::from_fill(2, 2, &fill),
        Err(GridError::InvalidDimensions)
    ));
}

#[test]
fn from_fill_places_states_row_major() {
    let fill = vec![true, false, false, false, true, true];
    let g = Grid::from_fill(3, 2, &fill).unwrap();
    for y in 0..2 {
        for x in 0..3 {
            assert_eq!(g.cells[y][x].alive, fill[y * 3 + x]);
        }
    }
}

#[test]
fn blinker_oscillates_with_period_two() {
    let start = grid_with_live(5, 5, &[(1, 2), (2, 2), (3, 2)]);
    let gen1 = start.next_generation();
    assert_eq!(gen1.columns, 5);
    assert_eq!(gen1.rows, 5);
    assert_eq!(live_cells(&gen1), vec![(2, 1), (2, 2), (2, 3)]);
    assert!(!gen1.cells[2][1].alive);
    assert!(!gen1.cells[2][3].alive);
    let gen2 = gen1.next_generation();
    assert_eq!(live_cells(&gen2), vec![(1, 2), (2, 2), (3, 2)]);
}

#[test]
fn all_dead_grid_stays_dead() {
    let g = grid_with_live(4, 7, &[]);
    let next = g.next_generation();
    assert_eq!(next.columns, 4);
    assert_eq!(next.rows, 7);
    assert_eq!(live_cells(&next), Vec::<(usize, usize)>::new());
}

#[test]
fn next_generation_keeps_dimensions() {
    let g = Grid::initialize(12, 9).unwrap();
    let next = g.next_generation();
    assert_eq!(next.columns, 12);
    assert_eq!(next.rows, 9);
    assert_eq!(next.cells.len(), 9);
    for row in &next.cells {
        assert_eq!(row.len(), 12);
    }
}

#[test]
fn corner_counts_only_in_bounds_neighbors() {
    // The three real neighbors of (0, 0) are alive, so it comes alive. The
    // cells a wrapping count would also read — (2, 0), (0, 2), (2, 2), the
    // far-edge images of (-1, 0), (0, -1), (-1, -1) — are alive too; wrapped
    // in, they would lift the count to six and keep the corner dead.
    let g = grid_with_live(3, 3, &[(1, 0), (0, 1), (1, 1), (2, 0), (0, 2), (2, 2)]);
    let next = g.next_generation();
    assert!(next.cells[0][0].alive);
}

#[test]
fn snapshot_copies_states() {
    let g = grid_with_live(4, 3, &[(0, 0), (3, 2), (1, 1)]);
    let copy = g.snapshot();
    assert_eq!(copy.columns, 4);
    assert_eq!(copy.rows, 3);
    assert_eq!(live_cells(&copy), live_cells(&g));
}

#[test]
fn render_emits_one_rect_per_cell_row_major() {
    let fill = vec![true, false, false, true];
    let g = Grid::from_fill(2, 2, &fill).unwrap();
    let cmds = render(&g);
    assert_eq!(cmds.len(), 4);
    assert_eq!(
        cmds[0],
        CellDraw { left: 4, top: 4, right: 8, bottom: 8, alive: true }
    );
    assert_eq!(
        cmds[1],
        CellDraw { left: 8, top: 4, right: 12, bottom: 8, alive: false }
    );
    assert_eq!(
        cmds[2],
        CellDraw { left: 4, top: 8, right: 8, bottom: 12, alive: false }
    );
    assert_eq!(
        cmds[3],
        CellDraw { left: 8, top: 8, right: 12, bottom: 12, alive: true }
    );
}

#[test]
fn render_twice_gives_the_same_commands() {
    let g = grid_with_live(6, 4, &[(1, 1), (2, 1), (3, 1), (5, 3)]);
    let first = render(&g);
    let second = render(&g);
    assert_eq!(first, second);
}

#[test]
fn generations_per_second_uses_floor_interval() {
    assert_eq!(generations_per_second(90), 10);
    assert_eq!(generations_per_second(0), 100);
    assert_eq!(generations_per_second(990), 1);
    assert_eq!(generations_per_second(1990), 0);
}

#[test]
fn simulation_state_flags() {
    let g = grid_with_live(3, 3, &[(1, 1)]);
    let mut s = SimulationState::new(g);
    assert!(s.is_active);
    assert!(!s.is_over);
    assert!(s.should_run());
    s.stop();
    assert!(!s.is_active);
    assert!(!s.should_run());
    s.set_over();
    assert!(s.is_over);
    assert!(!s.is_active);
}

#[test]
fn coordinator_interleaved_advance_and_read() {
    // An interleaving of the clock thread's ticks with the display thread's
    // reads: every read sees a complete generation, never a torn grid.
    let start = grid_with_live(5, 5, &[(1, 2), (2, 2), (3, 2)]);
    let coord = Coordinator::new(
        SimulationState::new(start),
        SurfaceSize { width: 100, height: 50 },
    );
    let before = coord.snapshot_grid();
    assert_eq!(live_cells(&before), vec![(1, 2), (2, 2), (3, 2)]);

    assert!(coord.tick());
    let mid = coord.snapshot_grid();
    assert_eq!(mid.columns, 5);
    assert_eq!(mid.rows, 5);
    assert_eq!(live_cells(&mid), vec![(2, 1), (2, 2), (2, 3)]);

    let size = coord.surface_size();
    assert_eq!(size, SurfaceSize { width: 100, height: 50 });
    coord.set_surface_size(SurfaceSize { width: 640, height: 480 });
    let resized = coord.surface_size();
    assert_eq!(resized, SurfaceSize { width: 640, height: 480 });

    assert!(coord.tick());
    let after = coord.snapshot_grid();
    assert_eq!(live_cells(&after), vec![(1, 2), (2, 2), (3, 2)]);
}

#[test]
fn stop_halts_ticks_at_the_next_boundary() {
    let start = grid_with_live(4, 4, &[(1, 1), (2, 1), (1, 2), (2, 2)]);
    let coord = Coordinator::new(
        SimulationState::new(start),
        SurfaceSize { width: 0, height: 0 },
    );
    assert!(coord.is_active());
    assert!(coord.tick());
    coord.stop();
    assert!(!coord.is_active());
    // The first tick after the stop request does not advance and reports
    // inactive, so a clock loop driven by the tick result exits at once.
    let frozen = live_cells(&coord.snapshot_grid());
    assert!(!coord.tick());
    assert!(!coord.tick());
    assert_eq!(live_cells(&coord.snapshot_grid()), frozen);
}
