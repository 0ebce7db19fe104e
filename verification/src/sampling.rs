//! Edge colours: two thin strips from opposite borders of an image, each
//! reduced to one representative colour.

use vstd::prelude::*;
use crate::geometry::{calculate_edge_length, Orientation};
use crate::raster::{
    crop, dimensions, get_pixel, nearest_to_single_pixel, resize_to_single_pixel, samplable,
    Color, PixelBuffer, Raster, EXACT_SAMPLING_LIMIT,
};

verus! {

/// The colour that stands for a whole image: the one pixel that nearest
/// neighbour resampling to a single pixel leaves. This is no mean of the
/// channels.
pub open spec fn sampled_color(img: Raster) -> Color {
    nearest_to_single_pixel(img).pixel(0, 0)
}

/// The image is not empty and small enough for the resampler to be exact.
pub open spec fn exactly_sampled(img: Raster) -> bool {
    &&& 1 <= img.width <= EXACT_SAMPLING_LIMIT
    &&& 1 <= img.height() <= EXACT_SAMPLING_LIMIT
}

/// The pixel at half the width and half the height, each rounded down.
pub open spec fn centre_pixel(img: Raster) -> Color {
    img.pixel(img.width as int / 2, img.height() as int / 2)
}

/// Thickness of the strip sampled along an axis of `length` pixels: a
/// twentieth of it, rounded down, but one pixel at least where there is one.
pub open spec fn strip_thickness(length: int) -> int {
    if length / 20 > 0 {
        length / 20
    } else if length > 0 {
        1
    } else {
        0
    }
}

/// The strip at the leading border: the top rows of a landscape image, the
/// left columns of a portrait one.
pub open spec fn first_strip(img: Raster, orientation: Orientation) -> Raster {
    match orientation {
        Orientation::Landscape => img.crop(
            0,
            0,
            img.width,
            strip_thickness(img.height() as int) as nat,
        ),
        Orientation::Portrait => img.crop(
            0,
            0,
            strip_thickness(img.width as int) as nat,
            img.height(),
        ),
    }
}

/// The strip at the trailing border: the bottom rows of a landscape image, the
/// right columns of a portrait one.
pub open spec fn second_strip(img: Raster, orientation: Orientation) -> Raster {
    match orientation {
        Orientation::Landscape => img.crop(
            0,
            img.height() - strip_thickness(img.height() as int),
            img.width,
            strip_thickness(img.height() as int) as nat,
        ),
        Orientation::Portrait => img.crop(
            img.width - strip_thickness(img.width as int),
            0,
            strip_thickness(img.width as int) as nat,
            img.height(),
        ),
    }
}

/// The two edge colours of an image.
pub open spec fn edge_colors(img: Raster, orientation: Orientation) -> (Color, Color) {
    (sampled_color(first_strip(img, orientation)), sampled_color(second_strip(img, orientation)))
}

/// The pixels that the edge colours are taken from where sampling is exact:
/// the centre pixel of each strip.
pub open spec fn edge_pixels(img: Raster, orientation: Orientation) -> (Color, Color) {
    (centre_pixel(first_strip(img, orientation)), centre_pixel(second_strip(img, orientation)))
}

/// The strip thickness for an axis: `calculate_edge_length`, raised to one
/// pixel where that would leave an empty strip of an axis that is not empty.
pub fn strip_length(length: u32) -> (res: u32)
    ensures
        res == strip_thickness(length as int),
        res <= length,
        length > 0 ==> res >= 1,
{
    let edge_length = calculate_edge_length(length);
    if edge_length == 0 && length > 0 {
        1
    } else {
        edge_length
    }
}

/// Reduces an image to one colour by resampling it to a single pixel with the
/// nearest neighbour filter. For an image that is exactly sampled this is its
/// centre pixel. The image must be narrow enough for the resampler's row of
/// floating-point pixels to be allocated.
pub fn average_color(img: &PixelBuffer) -> (res: Color)
    requires
        samplable(img@.width as int),
    ensures
        res == sampled_color(img@),
        exactly_sampled(img@) ==> res == centre_pixel(img@),
{
    let resized = resize_to_single_pixel(img);
    get_pixel(&resized, 0, 0)
}

/// Samples the two edge colours of an image: from its top and bottom strips
/// when it is landscape, from its left and right strips when it is portrait.
pub fn aggregate_edge_colors(img: &PixelBuffer, orientation: Orientation) -> (res: (Color, Color))
    requires
        samplable(img@.width as int),
    ensures
        res == edge_colors(img@, orientation),
        exactly_sampled(img@) ==> res == edge_pixels(img@, orientation),
{
    let (width, height) = dimensions(img);
    match orientation {
        Orientation::Landscape => {
            let edge_length = strip_length(height);
            let first_edge = average_color(&crop(img, 0, 0, width, edge_length));
            let second_edge = average_color(
                &crop(img, 0, height - edge_length, width, edge_length),
            );
            (first_edge, second_edge)
        },
        Orientation::Portrait => {
            let edge_length = strip_length(width);
            let first_edge = average_color(&crop(img, 0, 0, edge_length, height));
            let second_edge = average_color(
                &crop(img, width - edge_length, 0, edge_length, height),
            );
            (first_edge, second_edge)
        },
    }
}

/// Where in the image the centre pixels of the two strips lie.
pub proof fn lemma_edge_pixels(img: Raster, orientation: Orientation)
    requires
        img.wf(),
        img.width >= 1,
        img.height() >= 1,
    ensures
        ({
            let w = img.width as int;
            let h = img.height() as int;
            let tw = strip_thickness(w);
            let th = strip_thickness(h);
            edge_pixels(img, orientation) == match orientation {
                Orientation::Landscape => (
                    img.pixel(w / 2, th / 2),
                    img.pixel(w / 2, h - th + th / 2),
                ),
                Orientation::Portrait => (
                    img.pixel(tw / 2, h / 2),
                    img.pixel(w - tw + tw / 2, h / 2),
                ),
            }
        }),
{
}

} // verus!
