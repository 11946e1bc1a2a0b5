//! Line rasterization on concrete endpoint pairs.

use termcube::raster::line_cells;

fn check_shape(cells: &[(i64, i64)], a: (i64, i64), b: (i64, i64)) {
    let max_d = ((b.0 - a.0).abs()).max((b.1 - a.1).abs());
    assert_eq!(cells.len() as i64, max_d + 1);
    assert_eq!(cells[0], a);
    assert_eq!(*cells.last().unwrap(), b);
    let hits = cells.iter().filter(|&&c| c == b).count();
    assert_eq!(hits, 1);
}

#[test]
fn line_single_point() {
    let cells = line_cells(5, 7, 5, 7);
    assert_eq!(cells, vec![(5, 7)]);
}

#[test]
fn line_horizontal() {
    let cells = line_cells(0, 0, 5, 0);
    assert_eq!(cells, vec![(0, 0), (1, 0), (2, 0), (3, 0), (4, 0), (5, 0)]);
    check_shape(&cells, (0, 0), (5, 0));
}

#[test]
fn line_vertical() {
    let cells = line_cells(2, 1, 2, 4);
    assert_eq!(cells, vec![(2, 1), (2, 2), (2, 3), (2, 4)]);
    check_shape(&cells, (2, 1), (2, 4));
}

#[test]
fn line_diagonal() {
    let cells = line_cells(0, 0, 3, 3);
    assert_eq!(cells, vec![(0, 0), (1, 1), (2, 2), (3, 3)]);
}

#[test]
fn line_shallow_slope() {
    let cells = line_cells(0, 0, 5, 2);
    assert_eq!(cells, vec![(0, 0), (1, 0), (2, 1), (3, 1), (4, 2), (5, 2)]);
    check_shape(&cells, (0, 0), (5, 2));
}

#[test]
fn line_reverse_direction() {
    let cells = line_cells(5, 2, 0, 0);
    assert_eq!(cells, vec![(5, 2), (4, 2), (3, 1), (2, 1), (1, 0), (0, 0)]);
    check_shape(&cells, (5, 2), (0, 0));
}

#[test]
fn line_steep_negative() {
    let cells = line_cells(-1, 4, -3, -2);
    check_shape(&cells, (-1, 4), (-3, -2));
    // every cell stays in the bounding box
    for &(x, y) in &cells {
        assert!((-3..=-1).contains(&x));
        assert!((-2..=4).contains(&y));
    }
}

#[test]
fn line_terminates_on_large_span() {
    let cells = line_cells(-1000, 0, 1000, 7);
    check_shape(&cells, (-1000, 0), (1000, 7));
}
