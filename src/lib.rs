//! Merges two raster images into one by taking whole RGBA8 pixels from each
//! source in turn.

mod args;
mod image_data;
mod pipeline;
mod pixels;
mod reconcile;

pub use pixels::{alternate_pixels, interleaved, lemma_interleave_not_symmetric, lemma_interleave_pixels, set_rgba, takes_first};
pub use args::Args;
pub use image_data::{rgba_len, ImageDataError, ImageObject};
pub use reconcile::{area, get_smallest_image, reconcilable, reconciled_pixels, resize_fits, resized_rgba, smallest, standardise_size, DecodedImage};
pub use pipeline::{can_standardise, combine_images, merge_images};
