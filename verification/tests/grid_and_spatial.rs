use bevy_ecs::entity::Entity;
use city_simulator::components::grid::{
    clear_cells, gather_cells, index_from_xy, insert_into_cell, GridFootprint, GRID_HEIGHT, GRID_WIDTH,
    MAX_ENTITIES,
};
use city_simulator::utils::spatial::{clamp_cell, gather_clamped, smoothing_window};

fn e(i: u32) -> Entity {
    Entity::from_raw_u32(i).unwrap()
}

#[test]
fn grid_constants() {
    assert_eq!(GRID_WIDTH, 256);
    assert_eq!(GRID_HEIGHT, 256);
    assert_eq!(MAX_ENTITIES, 30_000);
}

#[test]
fn flat_index() {
    assert_eq!(index_from_xy(3, 2, 10), 23);
    assert_eq!(index_from_xy(0, 0, 0), 0);
}

#[test]
fn footprint_rect_row_by_row() {
    let f = GridFootprint::from_rect(5, 7, 3, 2);
    assert_eq!(f.cells, vec![(5, 7), (6, 7), (7, 7), (5, 8), (6, 8), (7, 8)]);
    assert!(GridFootprint::new().cells.is_empty());
    assert!(GridFootprint::from_rect(1, 1, 0, 4).cells.is_empty());
}

#[test]
fn spatial_hash_cells() {
    let mut cells: Vec<Vec<Entity>> = vec![Vec::new(); 9];
    insert_into_cell(&mut cells, 4, e(1));
    insert_into_cell(&mut cells, 4, e(2));
    insert_into_cell(&mut cells, 0, e(3));
    insert_into_cell(&mut cells, 9, e(4));
    assert_eq!(cells[4], vec![e(1), e(2)]);
    assert_eq!(cells[0], vec![e(3)]);
    // Radius 1 around the centre of a 3-wide grid visits every cell, row by row.
    assert_eq!(gather_cells(&cells, 1, 1, 1, 3), vec![e(3), e(1), e(2)]);
    // Radius 0 at the corner visits only that cell.
    assert_eq!(gather_cells(&cells, 0, 0, 0, 3), vec![e(3)]);
    // Cells left of or above the grid are skipped.
    assert_eq!(gather_cells(&cells, -1, -1, 1, 3), vec![e(3)]);
    // A negative radius visits nothing.
    assert!(gather_cells(&cells, 1, 1, -1, 3).is_empty());
    clear_cells(&mut cells);
    assert_eq!(cells.len(), 9);
    assert!(cells.iter().all(|c| c.is_empty()));
}

#[test]
fn spatial_hash_grid_scan_clamps_to_first_cells() {
    let mut cells: Vec<Vec<u32>> = vec![Vec::new(); 4];
    insert_into_cell(&mut cells, 0, 10);
    insert_into_cell(&mut cells, 3, 13);
    // Around (0, 0) with radius 1: offsets -1 are raised to 0, so the first
    // cell is visited several times; cells past the 2x2 grid are skipped.
    let found = gather_clamped(&cells, 2, 2, 0, 0, 1);
    assert_eq!(found, vec![10, 10, 10, 10, 13]);
    assert_eq!(gather_clamped(&cells, 2, 2, 1, 1, 0), vec![13]);
    assert!(gather_clamped(&cells, 2, 2, 1, 1, -1).is_empty());
}

#[test]
fn clamp_cell_to_grid() {
    assert_eq!(clamp_cell(5, 1, 4, 4), (3, 1));
    assert_eq!(clamp_cell(2, 9, 4, 3), (2, 2));
}

#[test]
fn smoothing_window_cells() {
    // Radius 1 around (1, 1) in a 3x3 grid: all nine cells.
    let w = smoothing_window(1, 1, 1, 3, 3);
    assert_eq!(w.len(), 9);
    assert_eq!(w[0], (0, 0));
    assert_eq!(w[8], (2, 2));
    // At the corner the offsets saturate at zero: the first row and column repeat.
    let c = smoothing_window(0, 0, 1, 3, 3);
    assert_eq!(c, vec![(0, 0), (0, 0), (1, 0), (0, 0), (0, 0), (1, 0), (0, 1), (0, 1), (1, 1)]);
    assert_eq!(smoothing_window(2, 2, 0, 3, 3), vec![(2, 2)]);
    assert!(smoothing_window(5, 5, 0, 3, 3).is_empty());
}
