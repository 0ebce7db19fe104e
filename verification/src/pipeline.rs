//! The pipeline from a decoded image to its letterboxed canvas.

use vstd::prelude::*;
use crate::canvas::{
    centred_on, composite, create_split_background, normalise_image, split_background,
    split_color, trimmed,
};
use crate::error::PipelineError;
use crate::geometry::{
    canvas_dimensions, centre_offset, checked_canvas_dimensions, is_conformant,
    lemma_canvas_is_conformant, lemma_canvas_keeps_ratio, lemma_trimmed_fits_canvas,
    lemma_trimmed_is_multiple, orientation_of, reconcile, trimmed_length, Orientation,
};
use crate::raster::{allocatable, fits_sampling, samplable, Color, PixelBuffer, Raster};
use crate::sampling::{aggregate_edge_colors, edge_colors, edge_pixels, exactly_sampled};

verus! {

/// One conversion job: where the image comes from, where the result goes, and
/// the aspect ratio to reach. Both components of the ratio are positive.
#[derive(Debug)]
pub struct ImageInfo {
    source: String,
    destination: String,
    aspect_width: u32,
    aspect_height: u32,
}

/// The mathematical model of a job.
pub struct ImageInfoView {
    pub source: Seq<char>,
    pub destination: Seq<char>,
    pub aspect_ratio: (u32, u32),
}

impl View for ImageInfo {
    type V = ImageInfoView;

    closed spec fn view(&self) -> ImageInfoView {
        ImageInfoView {
            source: self.source@,
            destination: self.destination@,
            aspect_ratio: (self.aspect_width, self.aspect_height),
        }
    }
}

impl ImageInfo {
    #[verifier::type_invariant]
    closed spec fn positive_ratio(&self) -> bool {
        self.aspect_width > 0 && self.aspect_height > 0
    }

    /// A job, or `None` when a component of the ratio is zero.
    pub fn new(source: String, destination: String, aspect_ratio: (u32, u32)) -> (res: Option<
        ImageInfo,
    >)
        ensures
            res.is_some() <==> aspect_ratio.0 > 0 && aspect_ratio.1 > 0,
            res matches Some(info) ==> info@ == (ImageInfoView {
                source: source@,
                destination: destination@,
                aspect_ratio,
            }),
    {
        if aspect_ratio.0 > 0 && aspect_ratio.1 > 0 {
            Some(
                ImageInfo {
                    source,
                    destination,
                    aspect_width: aspect_ratio.0,
                    aspect_height: aspect_ratio.1,
                },
            )
        } else {
            None
        }
    }

    /// The path of the image to read.
    pub fn source(&self) -> (res: &str)
        ensures
            res@ == self@.source,
    {
        self.source.as_str()
    }

    /// The path to write the result to.
    pub fn destination(&self) -> (res: &str)
        ensures
            res@ == self@.destination,
    {
        self.destination.as_str()
    }

    /// The target ratio, width then height; both are positive.
    pub fn aspect_ratio(&self) -> (res: (u32, u32))
        ensures
            res == self@.aspect_ratio,
            res.0 > 0,
            res.1 > 0,
    {
        proof {
            use_type_invariant(self);
        }
        (self.aspect_width, self.aspect_height)
    }
}

impl Clone for ImageInfo {
    fn clone(&self) -> (res: Self)
        ensures
            res@ == self@,
    {
        proof {
            use_type_invariant(self);
        }
        ImageInfo {
            source: self.source.clone(),
            destination: self.destination.clone(),
            aspect_width: self.aspect_width,
            aspect_height: self.aspect_height,
        }
    }
}

/// What the pipeline made of an image.
pub enum Outcome {
    /// The image already has the ratio: the result is the source, unchanged.
    Unchanged,
    /// The image on its canvas.
    Composed(PixelBuffer),
}

/// The orientation of an image with respect to a ratio.
pub open spec fn orientation_for(img: Raster, ratio: (u32, u32)) -> Orientation {
    orientation_of(img.width as int / ratio.0 as int, img.height() as int / ratio.1 as int)
}

/// The canvas size for an image and a ratio.
pub open spec fn canvas_for(img: Raster, ratio: (u32, u32)) -> (int, int) {
    canvas_dimensions(
        (ratio.0 as int, ratio.1 as int),
        (img.width as int / ratio.0 as int, img.height() as int / ratio.1 as int),
        orientation_for(img, ratio),
    )
}

/// The image trimmed to whole multiples of the ratio's components.
pub open spec fn trimmed_to_ratio(img: Raster, ratio: (u32, u32)) -> Raster {
    trimmed(img, (img.width as int % ratio.0 as int, img.height() as int % ratio.1 as int))
}

/// The canvas and the buffers on the way to it fit the machine: the sides of
/// the canvas fit `u32`, the canvas can be allocated, and the trimmed image
/// can be resampled.
pub open spec fn fits_machine(img: Raster, ratio: (u32, u32)) -> bool {
    &&& canvas_for(img, ratio).0 <= u32::MAX
    &&& canvas_for(img, ratio).1 <= u32::MAX
    &&& allocatable(canvas_for(img, ratio).0, canvas_for(img, ratio).1)
    &&& samplable(trimmed_length(img.width as int, ratio.0 as int))
}

/// The trimmed image centred on the two-tone canvas painted with `colors`.
pub open spec fn letterboxed(img: Raster, ratio: (u32, u32), colors: (Color, Color)) -> Raster {
    centred_on(
        split_background(
            canvas_for(img, ratio).0 as nat,
            canvas_for(img, ratio).1 as nat,
            colors.0,
            colors.1,
            orientation_for(img, ratio),
        ),
        trimmed_to_ratio(img, ratio),
    )
}

/// `out` is `img` letterboxed to `ratio`: the trimmed image centred on the
/// canvas painted in its two edge colours. Where the trimmed image is exactly
/// sampled, the edge colours are the centre pixels of its two strips.
pub open spec fn is_letterboxed(out: Raster, img: Raster, ratio: (u32, u32)) -> bool {
    let inner = trimmed_to_ratio(img, ratio);
    let orientation = orientation_for(img, ratio);
    &&& out.wf()
    &&& out == letterboxed(img, ratio, edge_colors(inner, orientation))
    &&& exactly_sampled(inner) ==> out == letterboxed(
        img,
        ratio,
        edge_pixels(inner, orientation),
    )
}

/// The image matches the ratio exactly.
pub open spec fn conforms(img: Raster, ratio: (u32, u32)) -> bool {
    is_conformant(img.width as int, img.height() as int, (ratio.0 as int, ratio.1 as int))
}

/// Runs the pipeline on a decoded image. An image that already has the ratio
/// is left alone. Any other is trimmed to whole multiples of the ratio, its
/// edge colours are sampled, and it is centred on a canvas of the exact ratio
/// painted in those colours. The only failure is a canvas, or a buffer on the
/// way to it, that the machine cannot hold.
pub fn compile_image(info: &ImageInfo, img: &PixelBuffer) -> (res: Result<Outcome, PipelineError>)
    ensures
        conforms(img@, info@.aspect_ratio) ==> res matches Ok(Outcome::Unchanged),
        !conforms(img@, info@.aspect_ratio) && fits_machine(img@, info@.aspect_ratio) ==> (
        res matches Ok(Outcome::Composed(out)) && is_letterboxed(out@, img@, info@.aspect_ratio)),
        !conforms(img@, info@.aspect_ratio) && !fits_machine(img@, info@.aspect_ratio) ==> (
        res matches Err(PipelineError::TooLarge)),
{
    let aspect_ratio = info.aspect_ratio();
    let width = img.width();
    let height = img.height();
    let reconciliation = reconcile(width, height, aspect_ratio);
    if reconciliation.is_exact() {
        return Ok(Outcome::Unchanged);
    }
    let orientation = reconciliation.orientation();
    let multipliers = (reconciliation.width_multiplier, reconciliation.height_multiplier);
    let (canvas_width, canvas_height) = match checked_canvas_dimensions(
        aspect_ratio,
        multipliers,
        orientation,
    ) {
        Some(canvas) => canvas,
        None => { return Err(PipelineError::TooLarge); },
    };
    proof {
        lemma_trimmed_is_multiple(width as int, aspect_ratio.0 as int);
        lemma_trimmed_is_multiple(height as int, aspect_ratio.1 as int);
        lemma_trimmed_fits_canvas(
            width as int,
            height as int,
            (aspect_ratio.0 as int, aspect_ratio.1 as int),
        );
    }
    if !fits_sampling(width - reconciliation.width_overflow) {
        return Err(PipelineError::TooLarge);
    }
    let mut canvas = match PixelBuffer::blank(canvas_width, canvas_height) {
        Some(canvas) => canvas,
        None => { return Err(PipelineError::TooLarge); },
    };
    let overflow = (reconciliation.width_overflow, reconciliation.height_overflow);
    let trimmed_img = match normalise_image(img, overflow) {
        Ok(trimmed_img) => trimmed_img,
        Err(e) => { return Err(e); },
    };
    let (first_edge, second_edge) = aggregate_edge_colors(&trimmed_img, orientation);
    create_split_background(&mut canvas, first_edge, second_edge, orientation);
    match composite(&mut canvas, &trimmed_img) {
        Ok(_) => Ok(Outcome::Composed(canvas)),
        Err(e) => Err(e),
    }
}

/// The letterboxed image has the size of the canvas, which is in the exact
/// proportion of the ratio and conformant: the pipeline, run on its own
/// output, leaves it unchanged.
pub proof fn lemma_letterboxed_is_conformant(
    img: Raster,
    ratio: (u32, u32),
    colors: (Color, Color),
)
    requires
        ratio.0 > 0,
        ratio.1 > 0,
    ensures
        letterboxed(img, ratio, colors).wf(),
        letterboxed(img, ratio, colors).width == canvas_for(img, ratio).0,
        letterboxed(img, ratio, colors).height() == canvas_for(img, ratio).1,
        letterboxed(img, ratio, colors).width * ratio.1 == letterboxed(img, ratio, colors).height()
            * ratio.0,
        is_conformant(
            letterboxed(img, ratio, colors).width as int,
            letterboxed(img, ratio, colors).height() as int,
            (ratio.0 as int, ratio.1 as int),
        ),
{
    let int_ratio = (ratio.0 as int, ratio.1 as int);
    let multipliers = (img.width as int / ratio.0 as int, img.height() as int / ratio.1 as int);
    let orientation = orientation_for(img, ratio);
    lemma_trimmed_is_multiple(img.width as int, ratio.0 as int);
    lemma_trimmed_is_multiple(img.height() as int, ratio.1 as int);
    lemma_trimmed_fits_canvas(img.width as int, img.height() as int, int_ratio);
    lemma_canvas_keeps_ratio(int_ratio, multipliers, orientation);
    lemma_canvas_is_conformant(int_ratio, multipliers, orientation);
}

/// Nothing of the trimmed image is clipped: centred, it lies within the
/// canvas, and each of its pixels is the pixel of the letterboxed image at
/// the same place, moved by the centring offsets.
pub proof fn lemma_nothing_is_clipped(
    img: Raster,
    ratio: (u32, u32),
    colors: (Color, Color),
    x: int,
    y: int,
)
    requires
        img.wf(),
        ratio.0 > 0,
        ratio.1 > 0,
        0 <= x < trimmed_to_ratio(img, ratio).width,
        0 <= y < trimmed_to_ratio(img, ratio).height(),
    ensures
        ({
            let out = letterboxed(img, ratio, colors);
            let inner = trimmed_to_ratio(img, ratio);
            let left = centre_offset(out.width as int, inner.width as int);
            let top = centre_offset(out.height() as int, inner.height() as int);
            &&& 0 <= left && left + inner.width <= out.width
            &&& 0 <= top && top + inner.height() <= out.height()
            &&& out.pixel(left + x, top + y) == inner.pixel(x, y)
            &&& inner.pixel(x, y) == img.pixel(
                (img.width % ratio.0 as nat) as int / 2 + x,
                (img.height() % ratio.1 as nat) as int / 2 + y,
            )
        }),
{
    lemma_letterboxed_is_conformant(img, ratio, colors);
    lemma_trimmed_is_multiple(img.width as int, ratio.0 as int);
    lemma_trimmed_is_multiple(img.height() as int, ratio.1 as int);
    lemma_trimmed_fits_canvas(
        img.width as int,
        img.height() as int,
        (ratio.0 as int, ratio.1 as int),
    );
}

/// Around the trimmed image the letterboxed image shows the two-tone
/// background.
pub proof fn lemma_background_shows_around(
    img: Raster,
    ratio: (u32, u32),
    colors: (Color, Color),
    x: int,
    y: int,
)
    requires
        ratio.0 > 0,
        ratio.1 > 0,
        0 <= x < canvas_for(img, ratio).0,
        0 <= y < canvas_for(img, ratio).1,
    ensures
        ({
            let out = letterboxed(img, ratio, colors);
            let inner = trimmed_to_ratio(img, ratio);
            let left = centre_offset(out.width as int, inner.width as int);
            let top = centre_offset(out.height() as int, inner.height() as int);
            !(left <= x < left + inner.width && top <= y < top + inner.height()) ==> out.pixel(
                x,
                y,
            ) == split_color(
                x,
                y,
                out.width as int,
                out.height() as int,
                colors.0,
                colors.1,
                orientation_for(img, ratio),
            )
        }),
{
    lemma_letterboxed_is_conformant(img, ratio, colors);
}

} // verus!
