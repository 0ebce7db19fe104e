use image_bg_extender::raster::{fits_allocation, fits_sampling};
use image_bg_extender::{
    aggregate_edge_colors, average_color, composite, create_split_background, normalise_image,
    Color, Orientation, PipelineError, PixelBuffer,
};

fn shade(x: u32, y: u32) -> Color {
    Color {
        red: (x % 251) as u8,
        green: (y % 241) as u8,
        blue: ((x * 7 + y * 13) % 256) as u8,
        alpha: (255 - (x + y) % 5) as u8,
    }
}

fn shaded(width: u32, height: u32) -> PixelBuffer {
    let mut data = Vec::new();
    for y in 0..height {
        for x in 0..width {
            let c = shade(x, y);
            data.push(c.red);
            data.push(c.green);
            data.push(c.blue);
            data.push(c.alpha);
        }
    }
    PixelBuffer::from_raw(width, height, data).unwrap()
}

const RED: Color = Color { red: 200, green: 10, blue: 20, alpha: 255 };

const BLUE: Color = Color { red: 5, green: 15, blue: 220, alpha: 128 };

const CLEAR: Color = Color { red: 0, green: 0, blue: 0, alpha: 0 };

#[test]
fn from_raw_reads_row_major_rgba() {
    let data = vec![1, 2, 3, 4, 5, 6, 7, 8, 9, 10, 11, 12, 13, 14, 15, 16, 17, 18, 19, 20, 21, 22, 23, 24];
    let buf = PixelBuffer::from_raw(3, 2, data).unwrap();
    assert_eq!(buf.width(), 3);
    assert_eq!(buf.height(), 2);
    assert_eq!(buf.pixel(0, 0), Some(Color { red: 1, green: 2, blue: 3, alpha: 4 }));
    assert_eq!(buf.pixel(2, 0), Some(Color { red: 9, green: 10, blue: 11, alpha: 12 }));
    assert_eq!(buf.pixel(0, 1), Some(Color { red: 13, green: 14, blue: 15, alpha: 16 }));
    assert_eq!(buf.pixel(2, 1), Some(Color { red: 21, green: 22, blue: 23, alpha: 24 }));
    assert_eq!(buf.pixel(3, 0), None);
    assert_eq!(buf.pixel(0, 2), None);
}

#[test]
fn from_raw_refuses_too_few_bytes() {
    assert!(PixelBuffer::from_raw(2, 2, vec![0; 15]).is_none());
    assert!(PixelBuffer::from_raw(2, 2, vec![0; 16]).is_some());
    assert!(PixelBuffer::from_raw(2, 2, vec![0; 17]).is_some());
    assert!(PixelBuffer::from_raw(0, 5, Vec::new()).is_some());
    assert!(PixelBuffer::from_raw(u32::MAX, u32::MAX, vec![0; 64]).is_none());
}

#[test]
fn into_raw_gives_the_bytes_back() {
    let data: Vec<u8> = (0..48).collect();
    let buf = PixelBuffer::from_raw(4, 3, data.clone()).unwrap();
    assert_eq!(buf.into_raw(), data);
}

#[test]
fn buffer_agrees_with_the_image_crate() {
    let buf = shaded(5, 4);
    let img = image::RgbaImage::from_raw(5, 4, buf.into_raw()).unwrap();
    for y in 0..4 {
        for x in 0..5 {
            let c = shade(x, y);
            assert_eq!(img.get_pixel(x, y).0, [c.red, c.green, c.blue, c.alpha]);
        }
    }
}

#[test]
fn blank_buffer_is_all_zero() {
    let buf = PixelBuffer::blank(3, 2).unwrap();
    assert_eq!(buf.width(), 3);
    assert_eq!(buf.height(), 2);
    for y in 0..2 {
        for x in 0..3 {
            assert_eq!(buf.pixel(x, y), Some(CLEAR));
        }
    }
    assert_eq!(buf.into_raw(), vec![0u8; 24]);
}

#[test]
fn blank_buffer_may_be_empty() {
    let buf = PixelBuffer::blank(0, 7).unwrap();
    assert_eq!(buf.width(), 0);
    assert_eq!(buf.height(), 7);
    assert_eq!(buf.pixel(0, 0), None);
}

#[test]
fn blank_buffer_beyond_an_allocation_is_refused() {
    assert!(PixelBuffer::blank(u32::MAX, u32::MAX).is_none());
}

#[test]
fn normalise_trims_evenly() {
    let img = shaded(10, 8);
    let out = normalise_image(&img, (4, 2)).ok().unwrap();
    assert_eq!(out.width(), 6);
    assert_eq!(out.height(), 6);
    for y in 0..6 {
        for x in 0..6 {
            assert_eq!(out.pixel(x, y), Some(shade(x + 2, y + 1)));
        }
    }
}

#[test]
fn normalise_takes_the_odd_pixel_from_the_trailing_side() {
    let img = shaded(10, 9);
    let out = normalise_image(&img, (3, 5)).ok().unwrap();
    assert_eq!(out.width(), 7);
    assert_eq!(out.height(), 4);
    // one column goes on the left and two on the right; two rows above, three below
    assert_eq!(out.pixel(0, 0), Some(shade(1, 2)));
    assert_eq!(out.pixel(6, 3), Some(shade(7, 5)));
}

#[test]
fn normalise_without_overflow_copies() {
    let img = shaded(4, 3);
    let out = normalise_image(&img, (0, 0)).ok().unwrap();
    assert_eq!(out.into_raw(), shaded(4, 3).into_raw());
}

#[test]
fn normalise_may_leave_nothing() {
    let img = shaded(4, 3);
    let out = normalise_image(&img, (4, 0)).ok().unwrap();
    assert_eq!(out.width(), 0);
    assert_eq!(out.height(), 3);
}

#[test]
fn normalise_refuses_an_overflow_beyond_the_image() {
    let img = shaded(4, 3);
    assert_eq!(normalise_image(&img, (5, 0)).err(), Some(PipelineError::CropOutOfBounds));
    assert_eq!(normalise_image(&img, (0, 4)).err(), Some(PipelineError::CropOutOfBounds));
    assert_eq!(
        normalise_image(&img, (u32::MAX, u32::MAX)).err(),
        Some(PipelineError::CropOutOfBounds)
    );
}

#[test]
fn average_color_is_the_centre_pixel() {
    for (w, h) in [
        (1u32, 1u32),
        (2, 1),
        (1, 2),
        (2, 2),
        (3, 3),
        (4, 4),
        (5, 2),
        (2, 5),
        (7, 3),
        (8, 6),
        (100, 5),
        (5, 100),
        (1000, 20),
        (255, 255),
        (256, 256),
        (1001, 1),
        (1, 1001),
    ] {
        let img = shaded(w, h);
        assert_eq!(average_color(&img), shade(w / 2, h / 2), "{} by {}", w, h);
    }
}

#[test]
fn average_color_of_a_long_row_is_its_centre_pixel() {
    let img = shaded(1_000_001, 1);
    assert_eq!(average_color(&img), shade(500_000, 0));
    let img = shaded(1, 999_999);
    assert_eq!(average_color(&img), shade(0, 499_999));
}

#[test]
fn average_color_is_no_mean() {
    // one black pixel beside three white ones: a mean would be grey
    let white = [255u8, 255, 255, 255];
    let black = [0u8, 0, 0, 255];
    let mut data = Vec::new();
    data.extend_from_slice(&white);
    data.extend_from_slice(&white);
    data.extend_from_slice(&black);
    data.extend_from_slice(&white);
    let img = PixelBuffer::from_raw(4, 1, data).unwrap();
    assert_eq!(average_color(&img), Color { red: 0, green: 0, blue: 0, alpha: 255 });
}

#[test]
fn edge_colors_of_a_landscape_image() {
    // 400 rows: strips of 20 rows, sampled at their centres
    let img = shaded(50, 400);
    let (first, second) = aggregate_edge_colors(&img, Orientation::Landscape);
    assert_eq!(first, shade(25, 10));
    assert_eq!(second, shade(25, 390));
}

#[test]
fn edge_colors_of_a_portrait_image() {
    // 100 columns: strips of 5 columns
    let img = shaded(100, 30);
    let (first, second) = aggregate_edge_colors(&img, Orientation::Portrait);
    assert_eq!(first, shade(2, 15));
    assert_eq!(second, shade(97, 15));
}

#[test]
fn edge_colors_of_a_thin_image_come_from_one_pixel_strips() {
    let img = shaded(9, 6);
    let (first, second) = aggregate_edge_colors(&img, Orientation::Landscape);
    assert_eq!(first, shade(4, 0));
    assert_eq!(second, shade(4, 5));
    let (first, second) = aggregate_edge_colors(&img, Orientation::Portrait);
    assert_eq!(first, shade(0, 3));
    assert_eq!(second, shade(8, 3));
}

#[test]
fn edge_colors_of_a_single_pixel() {
    let img = shaded(1, 1);
    assert_eq!(aggregate_edge_colors(&img, Orientation::Landscape), (shade(0, 0), shade(0, 0)));
    assert_eq!(aggregate_edge_colors(&img, Orientation::Portrait), (shade(0, 0), shade(0, 0)));
}

#[test]
fn edge_colors_agree_with_the_image_crate() {
    let img = shaded(120, 80);
    let reference = image::RgbaImage::from_raw(120, 80, shaded(120, 80).into_raw()).unwrap();
    let nearest = image::imageops::FilterType::Nearest;
    let top = image::imageops::crop_imm(&reference, 0, 0, 120, 4).to_image();
    let bottom = image::imageops::crop_imm(&reference, 0, 76, 120, 4).to_image();
    let top = image::imageops::resize(&top, 1, 1, nearest).get_pixel(0, 0).0;
    let bottom = image::imageops::resize(&bottom, 1, 1, nearest).get_pixel(0, 0).0;
    let (first, second) = aggregate_edge_colors(&img, Orientation::Landscape);
    assert_eq!([first.red, first.green, first.blue, first.alpha], top);
    assert_eq!([second.red, second.green, second.blue, second.alpha], bottom);
    let left = image::imageops::crop_imm(&reference, 0, 0, 6, 80).to_image();
    let right = image::imageops::crop_imm(&reference, 114, 0, 6, 80).to_image();
    let left = image::imageops::resize(&left, 1, 1, nearest).get_pixel(0, 0).0;
    let right = image::imageops::resize(&right, 1, 1, nearest).get_pixel(0, 0).0;
    let (first, second) = aggregate_edge_colors(&img, Orientation::Portrait);
    assert_eq!([first.red, first.green, first.blue, first.alpha], left);
    assert_eq!([second.red, second.green, second.blue, second.alpha], right);
}

#[test]
fn landscape_background_puts_the_first_color_below_the_middle() {
    let mut canvas = PixelBuffer::blank(3, 6).unwrap();
    create_split_background(&mut canvas, RED, BLUE, Orientation::Landscape);
    assert_eq!(canvas.width(), 3);
    assert_eq!(canvas.height(), 6);
    for x in 0..3 {
        for y in 0..=3 {
            assert_eq!(canvas.pixel(x, y), Some(BLUE));
        }
        for y in 4..6 {
            assert_eq!(canvas.pixel(x, y), Some(RED));
        }
    }
}

#[test]
fn landscape_background_of_odd_height() {
    let mut canvas = PixelBuffer::blank(2, 5).unwrap();
    create_split_background(&mut canvas, RED, BLUE, Orientation::Landscape);
    for x in 0..2 {
        for y in 0..=2 {
            assert_eq!(canvas.pixel(x, y), Some(BLUE));
        }
        for y in 3..5 {
            assert_eq!(canvas.pixel(x, y), Some(RED));
        }
    }
}

#[test]
fn portrait_background_puts_the_first_color_left_of_the_middle() {
    let mut canvas = PixelBuffer::blank(6, 3).unwrap();
    create_split_background(&mut canvas, RED, BLUE, Orientation::Portrait);
    for y in 0..3 {
        for x in 0..3 {
            assert_eq!(canvas.pixel(x, y), Some(RED));
        }
        for x in 3..6 {
            assert_eq!(canvas.pixel(x, y), Some(BLUE));
        }
    }
}

#[test]
fn portrait_background_of_odd_width() {
    let mut canvas = PixelBuffer::blank(5, 2).unwrap();
    create_split_background(&mut canvas, RED, BLUE, Orientation::Portrait);
    for y in 0..2 {
        for x in 0..2 {
            assert_eq!(canvas.pixel(x, y), Some(RED));
        }
        for x in 2..5 {
            assert_eq!(canvas.pixel(x, y), Some(BLUE));
        }
    }
}

#[test]
fn background_of_one_pixel() {
    let mut canvas = PixelBuffer::blank(1, 1).unwrap();
    create_split_background(&mut canvas, RED, BLUE, Orientation::Landscape);
    assert_eq!(canvas.pixel(0, 0), Some(BLUE));
    create_split_background(&mut canvas, RED, BLUE, Orientation::Portrait);
    assert_eq!(canvas.pixel(0, 0), Some(BLUE));
}

#[test]
fn background_of_an_empty_canvas() {
    let mut canvas = PixelBuffer::blank(0, 0).unwrap();
    create_split_background(&mut canvas, RED, BLUE, Orientation::Landscape);
    assert_eq!(canvas.width(), 0);
    assert_eq!(canvas.height(), 0);
}

#[test]
fn composite_centres_the_image() {
    let mut canvas = PixelBuffer::blank(8, 7).unwrap();
    create_split_background(&mut canvas, RED, RED, Orientation::Portrait);
    let img = shaded(4, 2);
    assert!(composite(&mut canvas, &img).is_ok());
    // offsets: (8 - 4) / 2 = 2 and (7 - 2) / 2 = 2
    for y in 0..7 {
        for x in 0..8 {
            let expected = if (2..6).contains(&x) && (2..4).contains(&y) {
                shade(x - 2, y - 2)
            } else {
                RED
            };
            assert_eq!(canvas.pixel(x, y), Some(expected));
        }
    }
}

#[test]
fn composite_of_the_same_size_replaces_everything() {
    let mut canvas = PixelBuffer::blank(5, 4).unwrap();
    assert!(composite(&mut canvas, &shaded(5, 4)).is_ok());
    assert_eq!(canvas.into_raw(), shaded(5, 4).into_raw());
}

#[test]
fn composite_refuses_an_image_larger_than_the_canvas() {
    let mut canvas = PixelBuffer::blank(100, 100).unwrap();
    create_split_background(&mut canvas, RED, BLUE, Orientation::Portrait);
    let before = {
        let mut copy = PixelBuffer::blank(100, 100).unwrap();
        create_split_background(&mut copy, RED, BLUE, Orientation::Portrait);
        copy.into_raw()
    };
    let img = shaded(101, 100);
    assert_eq!(composite(&mut canvas, &img), Err(PipelineError::CompositeOutOfBounds));
    assert_eq!(canvas.into_raw(), before);
    let mut canvas = PixelBuffer::blank(100, 100).unwrap();
    assert_eq!(
        composite(&mut canvas, &shaded(100, 101)),
        Err(PipelineError::CompositeOutOfBounds)
    );
}

#[test]
fn allocation_is_bounded_by_the_largest_signed_size() {
    assert!(fits_allocation(0, 0));
    assert!(fits_allocation(1000, 500));
    assert!(fits_allocation(u32::MAX, 0));
    assert!(!fits_allocation(u32::MAX, u32::MAX));
    let most = isize::MAX as u128 / 4;
    let side = 1u128 << 31;
    assert_eq!(fits_allocation(1 << 31, 1 << 31), side * side <= most);
    assert_eq!(fits_allocation(1 << 30, 1 << 30), (side / 2) * (side / 2) <= most);
}

#[test]
fn sampling_is_bounded_by_a_row_of_sixteen_byte_pixels() {
    assert!(fits_sampling(0));
    assert!(fits_sampling(1000));
    assert_eq!(fits_sampling(u32::MAX), 16 * (u32::MAX as u128) <= isize::MAX as u128);
}
