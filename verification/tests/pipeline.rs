use edge_ascii::{Image, Pix};
use photon_rs::PhotonImage;

/// A grid whose every pixel is the monochrome of the given gray value.
fn flat_grid(width: u32, height: u32, gray: u8, downscale: u32) -> Image {
    let pixels: Vec<Vec<Pix>> = (0..height)
        .map(|_| (0..width).map(|_| Pix::new(gray, gray, gray)).collect())
        .collect();
    Image { pixels, height, width, downscale }
}

#[test]
fn photon_roundtrip_keeps_pixels() {
    let pixels = vec![
        vec![Pix::new(1, 2, 3), Pix::new(4, 5, 6), Pix::new(7, 8, 9)],
        vec![Pix::new(250, 0, 100), Pix::new(0, 255, 0), Pix::new(30, 60, 90)],
    ];
    let img = Image { pixels, height: 2, width: 3, downscale: 5 };
    let photon = img.to_photon();
    assert_eq!(photon.get_width(), 3);
    assert_eq!(photon.get_height(), 2);
    let raw = photon.get_raw_pixels();
    assert_eq!(raw.len(), 24);
    assert_eq!(&raw[0..8], &[1, 2, 3, 255, 4, 5, 6, 255]);

    let back = Image::new(&photon, 5);
    assert_eq!(back.height, 2);
    assert_eq!(back.width, 3);
    assert_eq!(back.downscale, 5);
    for y in 0..2usize {
        for x in 0..3usize {
            let a = &img.pixels[y][x];
            let b = &back.pixels[y][x];
            assert_eq!((a.r, a.g, a.b, a.gray), (b.r, b.g, b.b, b.gray));
        }
    }
}

#[test]
fn image_new_derives_gray_from_raw() {
    let raw: Vec<u8> = vec![10, 20, 30, 255, 0, 0, 1, 0];
    let photon = PhotonImage::new(raw, 2, 1);
    let img = Image::new(&photon, 1);
    assert_eq!(img.pixels[0][0].gray, 20);
    assert_eq!(img.pixels[0][1].gray, 0); // the alpha byte is ignored
}

#[test]
fn diff_gaussian_output_is_binary_monochrome() {
    let mut img = flat_grid(8, 8, 0, 2);
    for y in 0..8usize {
        for x in 0..8usize {
            let g = ((x * 37 + y * 101) % 256) as u8;
            img.pixels[y][x] = Pix::new(g, g, g);
        }
    }
    let out = img.diff_gaussian(1, 3);
    assert_eq!(out.height, 8);
    assert_eq!(out.width, 8);
    assert_eq!(out.downscale, 2);
    for y in 0..8usize {
        for x in 0..8usize {
            let p = &out.pixels[y][x];
            assert_eq!(p.r, p.g);
            assert_eq!(p.g, p.b);
            assert!(p.r == 0 || p.r == 255, "binary at ({x}, {y})");
        }
    }
}

#[test]
fn resize_shrinks_by_downscale() {
    let img = flat_grid(8, 6, 77, 2);
    let out = img.resize();
    assert_eq!(out.width, 4);
    assert_eq!(out.height, 3);
    assert_eq!(out.downscale, 1);
    assert_eq!(out.pixels.len(), 3);
    assert_eq!(out.pixels[0].len(), 4);
}

#[test]
fn horizontal_edge_end_to_end() {
    // a 16x16 image, black above row 8 and white from it on: one hard
    // horizontal edge
    let mut sharp = flat_grid(16, 16, 0, 4);
    for y in 8..16usize {
        for x in 0..16usize {
            sharp.pixels[y][x] = Pix::new(255, 255, 255);
        }
    }
    // enhancement against an unlit heavy blur at threshold 3 keeps the
    // mask as it is: white where gray > 3
    let big = flat_grid(16, 16, 0, 4);
    let enhanced = Image::enhance(&sharp, &big, 3);

    let classified = enhanced.sobel();
    let coarse = classified.resize_sobel();
    assert_eq!((coarse.height, coarse.width, coarse.downscale), (4, 4, 1));

    let rows = coarse.to_ascii();
    assert_eq!(rows.len(), 4);
    assert_eq!(rows[0], "        ");
    assert_eq!(rows[1], "        ");
    assert_eq!(rows[2], "____");
    assert_eq!(rows[3], "        ");
}
