use sixel_backend::geometry::{CellCentre, CellSize, Geometry, WindowSize};

fn window(columns: u16, rows: u16, width: u16, height: u16) -> WindowSize {
    WindowSize { columns, rows, width, height }
}

#[test]
fn reported_pixels_are_used() {
    let geometry = Geometry::from_window_size(window(80, 24, 800, 480));
    assert_eq!(
        geometry,
        Geometry { cols: 80, rows: 24, width: 800, height: 456, full_height: 480 }
    );
}

#[test]
fn height_is_rounded_down_to_a_band() {
    // 500 pixels in 25 rows leave 480 = 80 * 6 above the last row, 505 leave 485.
    assert_eq!(Geometry::from_window_size(window(80, 25, 800, 500)).height, 480);
    assert_eq!(Geometry::from_window_size(window(80, 25, 800, 505)).height, 480);
    assert_eq!(Geometry::from_window_size(window(80, 25, 800, 506)).height, 486);
}

#[test]
fn missing_pixels_mean_cells_of_8_by_16() {
    let expected = Geometry { cols: 80, rows: 24, width: 640, height: 366, full_height: 384 };
    assert_eq!(Geometry::from_window_size(window(80, 24, 0, 0)), expected);
    assert_eq!(Geometry::from_window_size(window(80, 24, 800, 0)), expected);
    assert_eq!(Geometry::from_window_size(window(80, 24, 0, 480)), expected);
}

#[test]
fn an_empty_window_counts_as_one_cell() {
    assert_eq!(
        Geometry::from_window_size(window(0, 0, 0, 0)),
        Geometry { cols: 1, rows: 1, width: 8, height: 6, full_height: 16 }
    );
}

#[test]
fn a_single_row_still_gets_one_band() {
    assert_eq!(Geometry::from_window_size(window(10, 1, 100, 20)).height, 6);
    assert_eq!(Geometry::from_window_size(window(10, 1, 100, 3)).height, 6);
}

#[test]
fn largest_windows() {
    let geometry = Geometry::from_window_size(window(65535, 65535, 65535, 65535));
    assert_eq!((geometry.width, geometry.height), (65535, 65532));
    let geometry = Geometry::from_window_size(window(65535, 65535, 0, 0));
    assert_eq!((geometry.width, geometry.height), (524280, 1048542));
    assert_eq!(geometry.full_height, 1048560);
}

#[test]
fn last_row_is_left_free() {
    for rows in 2..60u16 {
        for height in 12..700u16 {
            let geometry = Geometry::from_window_size(window(80, rows, 800, height));
            let row = (height / rows) as u32;
            assert_eq!(geometry.height % 6, 0);
            if height as u32 - row >= 6 {
                assert!(geometry.height + row <= height as u32);
                assert!((height as u32) < geometry.height + row + 6);
            }
        }
    }
}

#[test]
fn cells_share_the_pixels_out() {
    let geometry = Geometry::from_window_size(window(80, 24, 801, 481));
    assert_eq!(geometry.cell_w(), CellSize { pixels: 801, cells: 80 });
    assert_eq!(geometry.cell_h(), CellSize { pixels: 481, cells: 24 });
    assert_eq!(Geometry::default().cell_w(), CellSize { pixels: 0, cells: 1 });
    assert_eq!(Geometry::default().cell_h(), CellSize { pixels: 0, cells: 1 });
}

#[test]
fn pointer_is_in_the_middle_of_its_cell() {
    let geometry = Geometry::from_window_size(window(80, 24, 800, 480));
    let at = geometry.cell_centre(79, 3);
    assert_eq!(at.x, CellCentre { cell: 79, size: CellSize { pixels: 800, cells: 80 } });
    assert_eq!(at.y, CellCentre { cell: 3, size: CellSize { pixels: 480, cells: 24 } });
    let pixels = |c: CellCentre| {
        (c.cell as f32 + 0.5) * (c.size.pixels as f32 / c.size.cells as f32)
    };
    assert_eq!((pixels(at.x), pixels(at.y)), (795.0, 70.0));
}

#[test]
fn pointers_keep_their_order_and_stay_inside() {
    let geometry = Geometry::from_window_size(window(80, 24, 801, 481));
    let numerator = |c: CellCentre| (2 * c.cell as u64 + 1) * c.size.pixels as u64;
    for column in 0..80u16 {
        let x = geometry.cell_centre(column, 0).x;
        assert!(numerator(x) < 801 * 2 * 80);
        if column > 0 {
            assert!(numerator(geometry.cell_centre(column - 1, 0).x) < numerator(x));
        }
    }
}

#[test]
fn frames_fit_into_memory() {
    assert!(Geometry::from_window_size(window(80, 24, 800, 480)).frame_fits());
    let huge = Geometry { cols: 1, rows: 1, width: u32::MAX, height: u32::MAX, full_height: 1 };
    assert!(!huge.frame_fits());
}
