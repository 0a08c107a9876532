use wave2d::error::SimError;
use wave2d::fixed::SCALE;
use wave2d::params::Params;

#[test]
fn rejects_non_positive_parameters() {
    assert_eq!(Params::new(0, SCALE, SCALE, SCALE).err(), Some(SimError::InvalidConfig));
    assert_eq!(Params::new(SCALE, -1, SCALE, SCALE).err(), Some(SimError::InvalidConfig));
    assert_eq!(Params::new(SCALE, SCALE, 0, SCALE).err(), Some(SimError::InvalidConfig));
    assert_eq!(Params::new(SCALE, SCALE, SCALE, -SCALE).err(), Some(SimError::InvalidConfig));
}

#[test]
fn rejects_spacing_whose_square_truncates_to_zero() {
    // 1000 raw units is about 2.3e-7; its fixed-point square is below one
    // raw unit and truncates to zero, which the stencil divides by.
    assert_eq!(Params::new(1000, SCALE, SCALE, SCALE).err(), Some(SimError::InvalidConfig));
    assert_eq!(Params::new(SCALE, 1000, SCALE, SCALE).err(), Some(SimError::InvalidConfig));
}

#[test]
fn derived_coefficients_are_exact() {
    let dt = SCALE / 10;
    let p = Params::new(2 * SCALE, 3 * SCALE, SCALE / 2, dt).unwrap();
    assert_eq!(p.dx, 2 * SCALE);
    assert_eq!(p.dy, 3 * SCALE);
    assert_eq!(p.c, SCALE / 2);
    assert_eq!(p.dt, dt);
    assert_eq!(p.dxsq, 4 * SCALE);
    assert_eq!(p.dysq, 9 * SCALE);
    assert_eq!(p.csq, SCALE / 4);
    assert_eq!(p.dt_half, dt / 2);
}

#[test]
fn accepts_a_tiny_wave_speed() {
    // c itself may be so small that c*c truncates to zero; only the
    // spacings are divided by, so this is a valid (if inert) run.
    let p = Params::new(SCALE, SCALE, 1000, SCALE).unwrap();
    assert_eq!(p.csq, 0);
}
