//! Trimming an image, painting the two-tone background and laying the trimmed
//! image on it.

use vstd::prelude::*;
use crate::error::PipelineError;
use crate::geometry::{centre, centre_offset, Orientation};
use crate::raster::{copy_from, crop, dimensions, put_pixel, Color, PixelBuffer, Raster};

verus! {

/// The image with its overflow removed: `overflow.0` columns and `overflow.1`
/// rows, half of each, rounded down, from the leading side and the rest from
/// the trailing side.
pub open spec fn trimmed(img: Raster, overflow: (int, int)) -> Raster {
    img.crop(
        overflow.0 / 2,
        overflow.1 / 2,
        (img.width - overflow.0) as nat,
        (img.height() - overflow.1) as nat,
    )
}

/// The colour of the background at `(x, y)` on a canvas of the given size.
/// On a landscape canvas the rows below the middle row take the first colour
/// and the others the second; on a portrait canvas the columns left of the
/// middle take the first colour and the others the second.
pub open spec fn split_color(
    x: int,
    y: int,
    width: int,
    height: int,
    first_color: Color,
    second_color: Color,
    orientation: Orientation,
) -> Color {
    match orientation {
        Orientation::Landscape => if y > height / 2 {
            first_color
        } else {
            second_color
        },
        Orientation::Portrait => if x < width / 2 {
            first_color
        } else {
            second_color
        },
    }
}

/// The two-tone background of the given size.
pub open spec fn split_background(
    width: nat,
    height: nat,
    first_color: Color,
    second_color: Color,
    orientation: Orientation,
) -> Raster {
    Raster::from_fn(
        width,
        height,
        |x: int, y: int|
            split_color(x, y, width as int, height as int, first_color, second_color, orientation),
    )
}

/// `canvas` with `img` laid over it, centred on both axes.
pub open spec fn centred_on(canvas: Raster, img: Raster) -> Raster {
    canvas.overlay(
        img,
        centre_offset(canvas.width as int, img.width as int),
        centre_offset(canvas.height() as int, img.height() as int),
    )
}

/// Removes the overflow from an image, evenly from both sides of each axis; an
/// odd overflow takes the extra pixel from the trailing side. Fails when an
/// overflow exceeds the side it is taken from.
pub fn normalise_image(img: &PixelBuffer, overflow: (u32, u32)) -> (res: Result<
    PixelBuffer,
    PipelineError,
>)
    ensures
        res.is_ok() <==> overflow.0 <= img@.width && overflow.1 <= img@.height(),
        res matches Ok(out) ==> out@ == trimmed(img@, (overflow.0 as int, overflow.1 as int))
            && out@.wf(),
        res matches Err(e) ==> e == PipelineError::CropOutOfBounds,
{
    let (width_overflow, height_overflow) = overflow;
    let (width, height) = dimensions(img);
    if width_overflow > width || height_overflow > height {
        return Err(PipelineError::CropOutOfBounds);
    }
    Ok(
        crop(
            img,
            width_overflow / 2,
            height_overflow / 2,
            width - width_overflow,
            height - height_overflow,
        ),
    )
}

/// Paints every pixel of `canvas` with one of two colours, split along the
/// axis that the orientation names.
pub fn create_split_background(
    canvas: &mut PixelBuffer,
    first_color: Color,
    second_color: Color,
    orientation: Orientation,
)
    ensures
        final(canvas)@ == split_background(
            old(canvas)@.width,
            old(canvas)@.height(),
            first_color,
            second_color,
            orientation,
        ),
        final(canvas)@.wf(),
{
    let (width, height) = dimensions(canvas);
    let ghost target = split_background(
        width as nat,
        height as nat,
        first_color,
        second_color,
        orientation,
    );
    match orientation {
        Orientation::Landscape => {
            for y in 0..height
                invariant
                    orientation == Orientation::Landscape,
                    target == split_background(
                        width as nat,
                        height as nat,
                        first_color,
                        second_color,
                        orientation,
                    ),
                    canvas@.width == width,
                    canvas@.height() == height,
                    canvas@.wf(),
                    forall|i: int, j: int|
                        0 <= i < width && 0 <= j < y ==> canvas@.pixel(i, j) == target.pixel(i, j),
            {
                let color = if y > height / 2 {
                    first_color
                } else {
                    second_color
                };
                for x in 0..width
                    invariant
                        y < height,
                        forall|i: int| 0 <= i < width ==> color == target.pixel(i, y as int),
                        canvas@.width == width,
                        canvas@.height() == height,
                        canvas@.wf(),
                        forall|i: int, j: int|
                            0 <= i < width && 0 <= j < y ==> canvas@.pixel(i, j) == target.pixel(
                                i,
                                j,
                            ),
                        forall|i: int|
                            0 <= i < x ==> canvas@.pixel(i, y as int) == target.pixel(i, y as int),
                {
                    put_pixel(canvas, x, y, color);
                }
            }
        },
        Orientation::Portrait => {
            for x in 0..width
                invariant
                    orientation == Orientation::Portrait,
                    target == split_background(
                        width as nat,
                        height as nat,
                        first_color,
                        second_color,
                        orientation,
                    ),
                    canvas@.width == width,
                    canvas@.height() == height,
                    canvas@.wf(),
                    forall|i: int, j: int|
                        0 <= i < x && 0 <= j < height ==> canvas@.pixel(i, j) == target.pixel(i, j),
            {
                let color = if x < width / 2 {
                    first_color
                } else {
                    second_color
                };
                for y in 0..height
                    invariant
                        x < width,
                        forall|j: int| 0 <= j < height ==> color == target.pixel(x as int, j),
                        canvas@.width == width,
                        canvas@.height() == height,
                        canvas@.wf(),
                        forall|i: int, j: int|
                            0 <= i < x && 0 <= j < height ==> canvas@.pixel(i, j) == target.pixel(
                                i,
                                j,
                            ),
                        forall|j: int|
                            0 <= j < y ==> canvas@.pixel(x as int, j) == target.pixel(x as int, j),
                {
                    put_pixel(canvas, x, y, color);
                }
            }
        },
    }
    proof {
        assert forall|j: int| 0 <= j < height implies #[trigger] canvas@.rows[j]
            =~= target.rows[j] by {
            assert forall|i: int| 0 <= i < width implies canvas@.rows[j][i]
                == target.rows[j][i] by {
                assert(canvas@.pixel(i, j) == target.pixel(i, j));
            }
        }
        assert(canvas@.rows =~= target.rows);
    }
}

/// Lays `img` on `canvas`, centred on both axes. Fails, and leaves the canvas
/// as it was, when `img` is wider or taller than the canvas.
pub fn composite(canvas: &mut PixelBuffer, img: &PixelBuffer) -> (res: Result<(), PipelineError>)
    ensures
        res.is_ok() <==> img@.width <= old(canvas)@.width && img@.height() <= old(
            canvas,
        )@.height(),
        res.is_ok() ==> final(canvas)@ == centred_on(old(canvas)@, img@) && final(canvas)@.wf(),
        res matches Err(e) ==> e == PipelineError::CompositeOutOfBounds && final(canvas)@ == old(
            canvas,
        )@,
{
    let (canvas_width, canvas_height) = dimensions(canvas);
    let (width, height) = dimensions(img);
    let x = centre(canvas_width, width);
    let y = centre(canvas_height, height);
    match copy_from(canvas, img, x, y) {
        Ok(_) => Ok(()),
        Err(_) => Err(PipelineError::CompositeOutOfBounds),
    }
}

} // verus!
