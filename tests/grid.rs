use raycast::grid::{pixel_grid, GridError, Screen};

#[test]
fn test_build_rotation_table() {
    // the table walks rows, then columns, as the pixel buffer does
    let cells = pixel_grid(3, 2);
    assert_eq!(cells, vec![(0, 0), (0, 1), (0, 2), (1, 0), (1, 1), (1, 2)]);
}

#[test]
fn grid_has_one_cell_per_pixel() {
    let cells = pixel_grid(4, 4);
    assert_eq!(cells.len(), 16);
    for (k, cell) in cells.iter().enumerate() {
        assert_eq!(*cell, (k / 4, k % 4));
        assert_eq!(cell.0 * 4 + cell.1, k);
    }
}

#[test]
fn center_column_of_odd_grid() {
    let columns = 5;
    let cells = pixel_grid(columns, 3);
    assert_eq!(cells.len(), 15);
    assert_eq!(cells[(columns - 1) / 2], (0, 2));
}

#[test]
fn pixel_count_of_valid_screen() {
    let screen = Screen { width: 128, height: 64 };
    assert_eq!(screen.pixel_count(), Ok(8192));
    assert_eq!(Screen { width: 2, height: 2 }.pixel_count(), Ok(4));
}

#[test]
fn pixel_count_refuses_small_grids() {
    assert_eq!(Screen { width: 1, height: 4 }.pixel_count(), Err(GridError::TooFewColumns));
    assert_eq!(Screen { width: 0, height: 0 }.pixel_count(), Err(GridError::TooFewColumns));
    assert_eq!(Screen { width: 4, height: 1 }.pixel_count(), Err(GridError::TooFewRows));
}

#[test]
fn pixel_count_refuses_overflow() {
    let screen = Screen { width: usize::MAX, height: 2 };
    assert_eq!(screen.pixel_count(), Err(GridError::TooManyPixels));
}
