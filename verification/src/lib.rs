//! Letterboxing of raster images to a target aspect ratio: the image is trimmed
//! to an exact multiple of the ratio and centred on a two-tone canvas whose
//! colours are sampled from the image's own edges.

pub mod canvas;
pub mod error;
pub mod geometry;
pub mod pipeline;
pub mod raster;
pub mod sampling;

pub use geometry::{
    calculate_canvas_dimensions, calculate_edge_length, centre, checked_canvas_dimensions, div,
    reconcile, Orientation, Reconciliation,
};
pub use raster::{Color, PixelBuffer, Raster};
pub use canvas::{composite, create_split_background, normalise_image};
pub use error::PipelineError;
pub use sampling::{aggregate_edge_colors, average_color, strip_length};
pub use pipeline::{compile_image, ImageInfo, Outcome};
