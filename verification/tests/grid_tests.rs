use wave2d::error::SimError;
use wave2d::grid::{Grid, MAX_DIM};

#[test]
fn filled_rejects_zero_dimensions() {
    assert_eq!(Grid::filled(0, 4, 0).err(), Some(SimError::InvalidConfig));
    assert_eq!(Grid::filled(4, 0, 0).err(), Some(SimError::InvalidConfig));
    assert_eq!(Grid::filled(0, 0, 0).err(), Some(SimError::InvalidConfig));
}

#[test]
fn filled_rejects_oversized_dimensions() {
    assert_eq!(Grid::filled(MAX_DIM + 1, 1, 0).err(), Some(SimError::InvalidConfig));
    assert_eq!(Grid::filled(1, MAX_DIM + 1, 0).err(), Some(SimError::InvalidConfig));
}

#[test]
fn filled_sets_every_cell() {
    let g = Grid::filled(3, 2, 42).unwrap();
    assert_eq!(g.nx, 3);
    assert_eq!(g.ny, 2);
    assert_eq!(g.cells.len(), 6);
    for j in 0..2 {
        for i in 0..3 {
            assert_eq!(g.get(i, j), 42);
        }
    }
}

#[test]
fn from_cells_rejects_wrong_length() {
    assert_eq!(
        Grid::from_cells(2, 2, vec![1, 2, 3]).err(),
        Some(SimError::ShapeMismatch)
    );
    assert_eq!(
        Grid::from_cells(2, 2, vec![1, 2, 3, 4, 5]).err(),
        Some(SimError::ShapeMismatch)
    );
}

#[test]
fn from_cells_rejects_zero_dimensions_first() {
    assert_eq!(Grid::from_cells(0, 2, vec![]).err(), Some(SimError::InvalidConfig));
}

#[test]
fn from_cells_is_row_major() {
    let g = Grid::from_cells(2, 2, vec![10, 11, 12, 13]).unwrap();
    assert_eq!(g.get(0, 0), 10);
    assert_eq!(g.get(1, 0), 11);
    assert_eq!(g.get(0, 1), 12);
    assert_eq!(g.get(1, 1), 13);
}

#[test]
fn set_then_get_roundtrips() {
    let mut g = Grid::filled(4, 3, 0).unwrap();
    g.set(2, 1, -7);
    assert_eq!(g.get(2, 1), -7);
    assert_eq!(g.get(1, 2), 0);
    assert_eq!(g.get(2, 0), 0);
}
