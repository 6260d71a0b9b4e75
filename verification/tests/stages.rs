use edge_ascii::pixel::direction_pixel;
use edge_ascii::{Direction, Image, Pix};

/// A grid whose every pixel is the monochrome of the given gray values.
fn gray_grid(rows: &[&[u8]]) -> Image {
    let pixels: Vec<Vec<Pix>> = rows
        .iter()
        .map(|r| r.iter().map(|&g| Pix::new(g, g, g)).collect())
        .collect();
    let height = rows.len() as u32;
    let width = rows[0].len() as u32;
    Image { pixels, height, width, downscale: 1 }
}

/// A grid whose every pixel carries the colour of the given direction.
fn dir_grid(rows: &[&[Direction]], downscale: u32) -> Image {
    let pixels: Vec<Vec<Pix>> = rows
        .iter()
        .map(|r| r.iter().map(|&d| direction_pixel(d)).collect())
        .collect();
    let height = rows.len() as u32;
    let width = rows[0].len() as u32;
    Image { pixels, height, width, downscale }
}

#[test]
fn pix_new_rounds_mean() {
    assert_eq!(Pix::new(10, 20, 30).gray, 20);
    assert_eq!(Pix::new(0, 0, 0).gray, 0);
    assert_eq!(Pix::new(0, 0, 1).gray, 0); // 1/3 rounds down
    assert_eq!(Pix::new(1, 1, 0).gray, 1); // 2/3 rounds up
    assert_eq!(Pix::new(255, 255, 255).gray, 255);
    assert_eq!(Pix::new(254, 255, 255).gray, 255); // 764/3 = 254.67
    assert_eq!(Pix::new(255, 0, 0).gray, 85);
    assert_eq!(Pix::new(255, 0, 255).gray, 170);
}

#[test]
fn get_is_bounds_checked() {
    let img = gray_grid(&[&[1, 2, 3], &[4, 5, 6]]);
    assert!(img.get(-1, 0).is_none());
    assert!(img.get(0, -1).is_none());
    assert!(img.get(3, 0).is_none());
    assert!(img.get(0, 2).is_none());
    let p = img.get(2, 1).expect("in bounds");
    assert_eq!((p.r, p.g, p.b, p.gray), (6, 6, 6, 6));
    let p = img.get(0, 0).expect("in bounds");
    assert_eq!((p.r, p.g, p.b, p.gray), (1, 1, 1, 1));
}

#[test]
fn enhance_thresholds_to_binary() {
    let small = gray_grid(&[&[0, 3, 4], &[100, 255, 2]]);
    let big = gray_grid(&[&[0, 0, 0], &[0, 0, 0]]);
    let out = Image::enhance(&small, &big, 3);
    // differences equal the small grid's values; > 3 turns white
    let expect = [[0u8, 0, 255], [255, 255, 0]];
    for y in 0..2usize {
        for x in 0..3usize {
            let p = &out.pixels[y][x];
            assert_eq!(p.r, expect[y][x]);
            assert_eq!(p.g, expect[y][x]);
            assert_eq!(p.b, expect[y][x]);
        }
    }
}

#[test]
fn enhance_subtraction_saturates() {
    // big blur brighter than small blur: difference floors at zero
    let small = gray_grid(&[&[10]]);
    let big = gray_grid(&[&[200]]);
    let out = Image::enhance(&small, &big, 3);
    let p = &out.pixels[0][0];
    assert_eq!((p.r, p.g, p.b), (0, 0, 0));
}

#[test]
fn sobel_uniform_grid_is_all_none() {
    let img = gray_grid(&[
        &[128, 128, 128, 128, 128],
        &[128, 128, 128, 128, 128],
        &[128, 128, 128, 128, 128],
        &[128, 128, 128, 128, 128],
        &[128, 128, 128, 128, 128],
    ]);
    let out = img.sobel();
    for y in 0..5usize {
        for x in 0..5usize {
            let p = &out.pixels[y][x];
            assert_eq!((p.r, p.g, p.b), (0, 0, 0));
        }
    }
}

#[test]
fn sobel_vertical_edge_is_classified_vertical() {
    // left two columns black, right three white; at interior rows the
    // gradient at columns 1 and 2 is (1020, 0): angle 0, class Vertical
    let img = gray_grid(&[
        &[0, 0, 255, 255, 255],
        &[0, 0, 255, 255, 255],
        &[0, 0, 255, 255, 255],
        &[0, 0, 255, 255, 255],
        &[0, 0, 255, 255, 255],
    ]);
    let out = img.sobel();
    for y in 1..4usize {
        for x in 0..5usize {
            let p = &out.pixels[y][x];
            if x == 1 || x == 2 {
                assert_eq!((p.r, p.g, p.b), (255, 0, 0), "vertical at ({x}, {y})");
            } else {
                assert_eq!((p.r, p.g, p.b), (0, 0, 0), "no edge at ({x}, {y})");
            }
        }
    }
}

#[test]
fn aggregate_all_none_window_is_black() {
    let n = Direction::NoEdge;
    let row: Vec<Direction> = vec![n; 8];
    let rows: Vec<&[Direction]> = (0..8).map(|_| row.as_slice()).collect();
    let img = dir_grid(&rows, 4);
    let out = img.resize_sobel();
    assert_eq!(out.height, 2);
    assert_eq!(out.width, 2);
    assert_eq!(out.downscale, 1);
    for y in 0..2usize {
        for x in 0..2usize {
            let p = &out.pixels[y][x];
            assert_eq!((p.r, p.g, p.b), (0, 0, 0));
        }
    }
}

#[test]
fn aggregate_saturated_window_keeps_direction() {
    let v = Direction::Vertical;
    let row: Vec<Direction> = vec![v; 8];
    let rows: Vec<&[Direction]> = (0..8).map(|_| row.as_slice()).collect();
    let img = dir_grid(&rows, 4);
    let out = img.resize_sobel();
    assert_eq!((out.height, out.width), (2, 2));
    for y in 0..2usize {
        for x in 0..2usize {
            let p = &out.pixels[y][x];
            assert_eq!((p.r, p.g, p.b), (255, 0, 0));
        }
    }
}

#[test]
fn aggregate_block_size_one_is_passthrough() {
    // with a block side of 1 each window is exactly the block's own
    // pixel: one vote beats the floor of 1 / 5 = 0
    let v = Direction::Vertical;
    let h = Direction::Horizontal;
    let n = Direction::NoEdge;
    let img = dir_grid(&[&[v, h], &[n, v]], 1);
    let out = img.resize_sobel();
    assert_eq!((out.height, out.width), (2, 2));
    let expect = [[(255u8, 0u8, 0u8), (0, 255, 0)], [(0, 0, 0), (255, 0, 0)]];
    for y in 0..2usize {
        for x in 0..2usize {
            let p = &out.pixels[y][x];
            assert_eq!((p.r, p.g, p.b), expect[y][x]);
        }
    }
}

#[test]
fn aggregate_odd_block_side_scans_full_side() {
    // block side 3: the single block's window spans columns and rows
    // -1..2, whose in-grid cells are all vertical: 4 votes > 9 / 5 = 1
    let v = Direction::Vertical;
    let img = dir_grid(&[&[v, v, v], &[v, v, v], &[v, v, v]], 3);
    let out = img.resize_sobel();
    assert_eq!((out.height, out.width), (1, 1));
    let p = &out.pixels[0][0];
    assert_eq!((p.r, p.g, p.b), (255, 0, 0));
}

#[test]
fn aggregate_tie_goes_to_vertical() {
    let n = Direction::NoEdge;
    let v = Direction::Vertical;
    let h = Direction::Horizontal;
    // block (1, 1) of a 4x4 grid at block side 2 scans cells (1..3, 1..3):
    // one vertical and one horizontal vote, total 2 > 4 / 5
    let img = dir_grid(
        &[&[n, n, n, n], &[n, v, h, n], &[n, n, n, n], &[n, n, n, n]],
        2,
    );
    let out = img.resize_sobel();
    let p = &out.pixels[1][1];
    assert_eq!((p.r, p.g, p.b), (255, 0, 0));
}

#[test]
fn glyphs_of_canonical_colors() {
    let img = dir_grid(
        &[&[
            Direction::Vertical,
            Direction::Backward,
            Direction::Horizontal,
            Direction::Forward,
            Direction::NoEdge,
        ]],
        1,
    );
    let rows = img.to_ascii();
    assert_eq!(rows.len(), 1);
    assert_eq!(rows[0], "|\\_/  ");
}

#[test]
fn direction_color_roundtrip_is_stable() {
    let dirs = [
        Direction::Vertical,
        Direction::Horizontal,
        Direction::Backward,
        Direction::Forward,
        Direction::NoEdge,
    ];
    for &d in dirs.iter() {
        let p = direction_pixel(d);
        assert_eq!(p.pix_direction(), d);
        // encoding the decoded tag again changes nothing
        let q = direction_pixel(p.pix_direction());
        assert_eq!((q.r, q.g, q.b, q.gray), (p.r, p.g, p.b, p.gray));
    }
}
