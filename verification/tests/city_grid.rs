use city_simulator::resources::{
    CityGrid, CONDUCTS_POWER_BIT, ENTITY_ID_MASK, ENTITY_ID_SHIFT, OCCUPIED_BIT,
};

#[test]
fn new_grid_is_empty() {
    let g = CityGrid::new(4, 3);
    assert_eq!(g.cells.len(), 12);
    assert_eq!(g.get(3, 2), 0);
    assert!(!g.is_occupied(1, 1));
    assert_eq!(g.get_entity_id(1, 1), None);
}

#[test]
fn default_grid_is_256_square() {
    let g = CityGrid::default();
    assert_eq!(g.width, 256);
    assert_eq!(g.height, 256);
    assert_eq!(g.cells.len(), 65536);
}

#[test]
fn entity_id_round_trip() {
    let mut g = CityGrid::new(8, 8);
    g.set_entity_id(2, 3, Some(41));
    assert_eq!(g.get_entity_id(2, 3), Some(41));
    assert_eq!(g.get(2, 3), 42 << ENTITY_ID_SHIFT);
    g.set_entity_id(2, 3, None);
    assert_eq!(g.get_entity_id(2, 3), None);
}

#[test]
fn entity_id_zero_is_stored_as_one() {
    let mut g = CityGrid::new(2, 2);
    g.set_entity_id(0, 0, Some(0));
    assert_eq!(g.get(0, 0), 1 << 8);
    assert_eq!(g.get_entity_id(0, 0), Some(0));
}

#[test]
fn set_entity_id_keeps_flags() {
    let mut g = CityGrid::new(4, 4);
    g.cells[5] = OCCUPIED_BIT | CONDUCTS_POWER_BIT;
    g.set_entity_id(1, 1, Some(7));
    assert!(g.is_occupied(1, 1));
    assert!(g.conducts_power(1, 1));
    assert_eq!(g.get(1, 1) & !ENTITY_ID_MASK, OCCUPIED_BIT | CONDUCTS_POWER_BIT);
    assert_eq!(g.get_entity_id(1, 1), Some(7));
}

#[test]
fn entity_id_field_wraps_at_24_bits() {
    let mut g = CityGrid::new(1, 1);
    // id + 1 == 2^24 does not fit in the field: it reads back as no entity.
    g.set_entity_id(0, 0, Some(0xFF_FFFF));
    assert_eq!(g.get_entity_id(0, 0), None);
    g.set_entity_id(0, 0, Some(0xFF_FFFE));
    assert_eq!(g.get_entity_id(0, 0), Some(0xFF_FFFE));
}

#[test]
fn out_of_range_cells_read_zero_and_ignore_writes() {
    let mut g = CityGrid::new(2, 2);
    assert_eq!(g.get(0, 5), 0);
    g.set_entity_id(0, 5, Some(3));
    assert_eq!(g.get_entity_id(0, 5), None);
    assert!(g.cells.iter().all(|c| *c == 0));
    assert!(g.get_mut(1, 2).is_none());
}

#[test]
fn flat_index_wraps_rows() {
    // x beyond the width reaches into the next row.
    let mut g = CityGrid::new(3, 3);
    g.set_entity_id(4, 0, Some(9));
    assert_eq!(g.get_entity_id(1, 1), Some(9));
}

#[test]
fn get_mut_writes_through() {
    let mut g = CityGrid::new(2, 2);
    if let Some(c) = g.get_mut(1, 1) {
        *c = OCCUPIED_BIT;
    }
    assert!(g.is_occupied(1, 1));
    assert!(!g.conducts_power(1, 1));
}

#[test]
fn rebuild_and_mark_dirty_keep_grid() {
    let mut g = CityGrid::new(2, 2);
    g.cells[0] = 5;
    g.rebuild_networks();
    g.mark_dirty();
    assert_eq!(g.cells, vec![5, 0, 0, 0]);
}
