use city_simulator::components::nature::{VegetationStage, VegetationState};
use city_simulator::systems::nature_systems::{run_succession_ticks, succession_step};
use city_simulator::resources::CityGrid;

#[test]
fn vegetation_stages() {
    let stage = |level: u8| VegetationState { level }.stage();
    assert_eq!(stage(0), VegetationStage::Dead);
    assert_eq!(stage(1), VegetationStage::Pioneer);
    assert_eq!(stage(10), VegetationStage::Pioneer);
    assert_eq!(stage(11), VegetationStage::Grass);
    assert_eq!(stage(100), VegetationStage::Grass);
    assert_eq!(stage(101), VegetationStage::Shrubs);
    assert_eq!(stage(200), VegetationStage::Shrubs);
    assert_eq!(stage(201), VegetationStage::Forest);
    assert_eq!(stage(255), VegetationStage::Forest);
}

#[test]
fn vegetation_constructors() {
    assert_eq!(VegetationState::new().level, 0);
    assert_eq!(VegetationState::default().level, 0);
    assert_eq!(VegetationState::fully_naturalized().level, 255);
}

#[test]
fn vegetation_grow_and_decay_saturate() {
    let mut v = VegetationState { level: 250 };
    v.grow(10);
    assert_eq!(v.level, 255);
    v.decay(100);
    assert_eq!(v.level, 155);
    v.decay(200);
    assert_eq!(v.level, 0);
    v.grow(5);
    v.clear();
    assert_eq!(v.level, 0);
}

#[test]
fn vegetation_maturity() {
    assert!(!VegetationState { level: 199 }.is_mature());
    assert!(VegetationState { level: 200 }.is_mature());
}

#[test]
fn growth_bonus_is_tenth_of_average() {
    let v = VegetationState::new();
    assert_eq!(v.calculate_growth_bonus(&[]), 0);
    assert_eq!(v.calculate_growth_bonus(&[100, 50]), 7);
    assert_eq!(v.calculate_growth_bonus(&[9]), 0);
    assert_eq!(v.calculate_growth_bonus(&[200, 55]), 12);
}

#[test]
fn succession_step_grows_and_matures() {
    let mut v = VegetationState { level: 195 };
    assert!(succession_step(&mut v, false, 10, &[]));
    assert_eq!(v.level, 205);
    assert!(!succession_step(&mut v, false, 10, &[]));
    assert_eq!(v.level, 215);
}

#[test]
fn succession_step_maintained_pushes_back() {
    let mut v = VegetationState { level: 30 };
    assert!(!succession_step(&mut v, true, 10, &[]));
    assert_eq!(v.level, 0);
    let mut w = VegetationState { level: 120 };
    succession_step(&mut w, true, 10, &[]);
    assert_eq!(w.level, 70);
}

#[test]
fn succession_ticks_respect_maintenance() {
    let grid = CityGrid::new(4, 4);
    let positions = vec![(0, 0), (1, 0)];
    let mut vegetation = vec![VegetationState { level: 199 }, VegetationState { level: 100 }];
    let well_maintained = vec![false, true];
    let mut rng = rand::thread_rng();
    let matured = run_succession_ticks(&mut rng, &grid, &positions, &mut vegetation, &well_maintained, 1, 500);
    assert!(vegetation[0].level >= 199);
    assert!(vegetation[1].level <= 100);
    assert!(matured.len() <= 2);
    for (i, tree) in matured {
        assert_eq!(i, 0);
        assert!(tree < 3);
        assert!(vegetation[i].level >= 200);
    }
}

#[test]
fn succession_ticks_on_no_cells() {
    let grid = CityGrid::new(1, 1);
    let mut vegetation: Vec<VegetationState> = Vec::new();
    let mut rng = rand::thread_rng();
    let matured = run_succession_ticks(&mut rng, &grid, &Vec::new(), &mut vegetation, &Vec::new(), 1, 500);
    assert!(matured.is_empty());
}

#[test]
fn succession_runs_exactly_the_bounded_number_of_ticks() {
    let grid = CityGrid::new(4, 4);
    let positions = vec![(0, 0), (1, 0), (2, 0)];
    let mut vegetation = vec![VegetationState { level: 0 }; 3];
    let well_maintained = vec![false, false, false];
    let mut rng = rand::thread_rng();
    // Two ticks (the bound is below the cell count), each adding 10 to one cell.
    let matured = run_succession_ticks(&mut rng, &grid, &positions, &mut vegetation, &well_maintained, 10, 2);
    let total: u32 = vegetation.iter().map(|v| v.level as u32).sum();
    assert_eq!(total, 20);
    assert!(matured.is_empty());

    // One cell just below maturity: a single tick must mature it and report it.
    let mut one = vec![VegetationState { level: 195 }];
    let matured = run_succession_ticks(&mut rng, &grid, &vec![(0, 0)], &mut one, &vec![false], 10, 7);
    assert_eq!(one[0].level, 205);
    assert_eq!(matured.len(), 1);
    assert_eq!(matured[0].0, 0);
    assert!(matured[0].1 < 3);
}
