use mux::layout::{scale_pixels, split_dimension, SplitDirection, TerminalSize};

fn size(rows: u16, cols: u16, pixel_width: u16, pixel_height: u16) -> TerminalSize {
    TerminalSize { rows, cols, pixel_width, pixel_height }
}

#[test]
fn even_extent_gives_one_cell_to_the_divider() {
    assert_eq!(split_dimension(80), (40, 39));
    assert_eq!(split_dimension(4), (2, 1));
    assert_eq!(split_dimension(2), (1, 0));
}

#[test]
fn odd_extent_is_halved_around_the_divider() {
    assert_eq!(split_dimension(81), (40, 40));
    assert_eq!(split_dimension(3), (1, 1));
    assert_eq!(split_dimension(1), (0, 0));
}

#[test]
fn nothing_divides_into_nothing() {
    assert_eq!(split_dimension(0), (0, 0));
}

#[test]
fn pixels_follow_whole_cells() {
    assert_eq!(scale_pixels(800, 80, 40), 400);
    assert_eq!(scale_pixels(805, 80, 39), 390);
    assert_eq!(scale_pixels(100, 0, 0), 0);
}

#[test]
fn horizontal_split_divides_columns() {
    let sizes = size(24, 80, 800, 480).split(SplitDirection::Horizontal);
    assert_eq!(sizes.direction, SplitDirection::Horizontal);
    assert_eq!(sizes.first, size(24, 40, 400, 480));
    assert_eq!(sizes.second, size(24, 39, 390, 480));
    assert!(sizes.fits());
}

#[test]
fn vertical_split_divides_rows() {
    let sizes = size(24, 80, 800, 480).split(SplitDirection::Vertical);
    assert_eq!(sizes.direction, SplitDirection::Vertical);
    assert_eq!(sizes.first, size(12, 80, 800, 240));
    assert_eq!(sizes.second, size(11, 80, 800, 220));
    assert!(sizes.fits());
}

#[test]
fn split_conserves_cells_along_its_axis() {
    for cols in 3u16..200 {
        let sizes = size(10, cols, 0, 0).split(SplitDirection::Horizontal);
        assert_eq!(sizes.first.cols + sizes.second.cols + 1, cols);
        assert_eq!(sizes.first.rows, 10);
        assert_eq!(sizes.second.rows, 10);
    }
}

#[test]
fn two_cells_are_too_few_to_split() {
    assert!(!size(24, 2, 0, 0).split(SplitDirection::Horizontal).fits());
    assert!(size(24, 3, 0, 0).split(SplitDirection::Horizontal).fits());
    assert!(!size(2, 80, 0, 0).split(SplitDirection::Vertical).fits());
    assert!(size(3, 80, 0, 0).split(SplitDirection::Vertical).fits());
    assert!(!size(0, 80, 0, 0).split(SplitDirection::Horizontal).fits());
}
