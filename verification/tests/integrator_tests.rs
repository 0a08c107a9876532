use wave2d::error::SimError;
use wave2d::fixed::SCALE;
use wave2d::grid::Grid;
use wave2d::integrator::{update_velocity, update_value};

#[test]
fn update_velocity_adds_scaled_acceleration() {
    // velocity = 1.0, acceleration = 2.0, dt = 0.5: velocity becomes 2.0.
    let mut vel = Grid::filled(3, 3, SCALE).unwrap();
    let acc = Grid::filled(3, 3, 2 * SCALE).unwrap();
    update_velocity(&mut vel, &acc, SCALE / 2).unwrap();
    assert!(vel.cells.iter().all(|&v| v == 2 * SCALE));
}

#[test]
fn update_value_adds_scaled_velocity() {
    // value = -1.0, velocity = 4.0, dt = 0.25: value becomes 0.0.
    let mut value = Grid::filled(2, 5, -SCALE).unwrap();
    let vel = Grid::filled(2, 5, 4 * SCALE).unwrap();
    update_value(&mut value, &vel, SCALE / 4).unwrap();
    assert!(value.cells.iter().all(|&v| v == 0));
}

#[test]
fn zero_rate_changes_nothing() {
    let mut vel = Grid::filled(4, 4, 77).unwrap();
    let acc = Grid::filled(4, 4, 0).unwrap();
    update_velocity(&mut vel, &acc, SCALE).unwrap();
    assert!(vel.cells.iter().all(|&v| v == 77));
}

#[test]
fn update_velocity_rejects_shape_mismatch() {
    let mut vel = Grid::filled(3, 3, 11).unwrap();
    let acc = Grid::filled(3, 4, 0).unwrap();
    assert_eq!(
        update_velocity(&mut vel, &acc, SCALE).err(),
        Some(SimError::ShapeMismatch)
    );
    assert!(vel.cells.iter().all(|&v| v == 11));
}

#[test]
fn update_value_rejects_shape_mismatch() {
    let mut value = Grid::filled(3, 3, 11).unwrap();
    let vel = Grid::filled(2, 3, 0).unwrap();
    assert_eq!(
        update_value(&mut value, &vel, SCALE).err(),
        Some(SimError::ShapeMismatch)
    );
    assert!(value.cells.iter().all(|&v| v == 11));
}
