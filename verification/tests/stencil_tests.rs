use wave2d::error::SimError;
use wave2d::fixed::SCALE;
use wave2d::grid::Grid;
use wave2d::params::Params;
use wave2d::stencil::update_acceleration;

fn unit_params() -> Params {
    // dx = dy = 1.0, c = 1.0, dt = 0.1
    Params::new(SCALE, SCALE, SCALE, SCALE / 10).unwrap()
}

#[test]
fn impulse_scenario_is_exact() {
    // 4x4 grid, zero everywhere except value[1,1] = 1.0. The stencil must
    // give acceleration[1,1] = -4.0, 1.0 at the four direct neighbors,
    // and 0.0 everywhere else.
    let p = unit_params();
    let mut value = Grid::filled(4, 4, 0).unwrap();
    value.set(1, 1, SCALE);
    let mut acc = Grid::filled(4, 4, 0).unwrap();
    update_acceleration(&mut acc, &value, &p).unwrap();
    for j in 0..4 {
        for i in 0..4 {
            let expected: i64 = match (i, j) {
                (1, 1) => -4 * SCALE,
                (0, 1) | (2, 1) | (1, 0) | (1, 2) => SCALE,
                _ => 0,
            };
            assert_eq!(acc.get(i, j), expected, "cell ({i}, {j})");
        }
    }
}

#[test]
fn impulse_at_origin_wraps_around() {
    // Only cell (0,0) is nonzero: the wrap-around neighbors (3,0), (1,0),
    // (0,3) and (0,1) must each receive one unit of Laplacian
    // contribution, and no other cell any.
    let p = unit_params();
    let mut value = Grid::filled(4, 4, 0).unwrap();
    value.set(0, 0, SCALE);
    let mut acc = Grid::filled(4, 4, 0).unwrap();
    update_acceleration(&mut acc, &value, &p).unwrap();
    for j in 0..4 {
        for i in 0..4 {
            let expected: i64 = match (i, j) {
                (0, 0) => -4 * SCALE,
                (3, 0) | (1, 0) | (0, 3) | (0, 1) => SCALE,
                _ => 0,
            };
            assert_eq!(acc.get(i, j), expected, "cell ({i}, {j})");
        }
    }
}

#[test]
fn spacing_rescales_the_laplacian() {
    // dx = dy = 0.5: each second difference is divided by 0.25, so the
    // impulse cell gets -16.0 and each neighbor 4.0.
    let p = Params::new(SCALE / 2, SCALE / 2, SCALE, SCALE / 10).unwrap();
    let mut value = Grid::filled(4, 4, 0).unwrap();
    value.set(1, 1, SCALE);
    let mut acc = Grid::filled(4, 4, 0).unwrap();
    update_acceleration(&mut acc, &value, &p).unwrap();
    assert_eq!(acc.get(1, 1), -16 * SCALE);
    assert_eq!(acc.get(0, 1), 4 * SCALE);
    assert_eq!(acc.get(1, 2), 4 * SCALE);
}

#[test]
fn update_acceleration_rejects_shape_mismatch() {
    let p = unit_params();
    let value = Grid::filled(4, 4, 5).unwrap();
    let mut acc = Grid::filled(4, 3, 9).unwrap();
    assert_eq!(
        update_acceleration(&mut acc, &value, &p).err(),
        Some(SimError::ShapeMismatch)
    );
    // The output grid is untouched on failure.
    assert!(acc.cells.iter().all(|&v| v == 9));

    let mut acc2 = Grid::filled(3, 4, 9).unwrap();
    assert_eq!(
        update_acceleration(&mut acc2, &value, &p).err(),
        Some(SimError::ShapeMismatch)
    );
}

#[test]
fn uniform_value_gives_zero_acceleration() {
    let p = unit_params();
    let value = Grid::filled(5, 7, 37 * SCALE / 100).unwrap();
    let mut acc = Grid::filled(5, 7, 123).unwrap();
    update_acceleration(&mut acc, &value, &p).unwrap();
    assert!(acc.cells.iter().all(|&v| v == 0));
}
