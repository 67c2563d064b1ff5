//! The merge itself: format check, common size, interleaving, and the
//! output buffer, between decoding the inputs and encoding the result.

use crate::image_data::{ImageDataError, ImageObject};
use crate::pixels::{alternate_pixels, interleaved};
use crate::reconcile::{
    area, reconcilable, reconciled_pixels, smallest, standardise_size, DecodedImage,
};
use vstd::prelude::*;

verus! {

/// Relies on the derived `PartialEq` of `image::ImageFormat`, an enum of unit
/// variants: two tags compare equal exactly when they are the same variant.
#[verifier::external_body]
fn same_format(a: &image::ImageFormat, b: &image::ImageFormat) -> (r: bool)
    ensures
        r == (*a == *b),
{
    a == b
}

/// Interleaves the pixels of two images of the same size.
pub fn combine_images(image1: DecodedImage, image2: DecodedImage) -> (combined: Vec<u8>)
    requires
        image1.wf(),
        image2.wf(),
        image1.dims() == image2.dims(),
    ensures
        combined@ == interleaved(image1.data@, image2.data@),
{
    alternate_pixels(image1.data, image2.data)
}

/// Tells whether `image1` and `image2` can be brought to a common size in
/// memory, which `merge_images` needs.
pub fn can_standardise(image1: &DecodedImage, image2: &DecodedImage) -> (r: bool)
    requires
        image1.wf(),
        image2.wf(),
    ensures
        r == reconcilable(*image1, *image2),
{
    let area1: u128 = (image1.width as u128) * (image1.height as u128);
    let area2: u128 = (image2.width as u128) * (image2.height as u128);
    let (from_width, to_height) = if area1 <= area2 {
        (image2.width, image1.height)
    } else {
        (image1.width, image2.height)
    };
    proof {
        assert(area1 == area(image1.dims()) && area2 == area(image2.dims())) by (nonlinear_arith)
            requires
                area1 == (image1.width as int) * (image1.height as int),
                area2 == (image2.width as int) * (image2.height as int),
        ;
        assert((from_width as int) * (to_height as int) * 16 <= 0x10_0000_0000_0000_0000) by (nonlinear_arith)
            requires
                from_width <= 0x1_0000_0000,
                to_height <= 0x1_0000_0000,
        ;
    }
    (from_width as u128) * (to_height as u128) * 16 <= isize::MAX as u128
}

/// Merges two decoded images into an output buffer named `output`.
///
/// Fails with `DifferentImageFormats`, before any pixel work, exactly when
/// the formats differ. Otherwise the output has the smaller-by-area
/// dimensions (the first image's on a tie), and its bytes are the
/// interleaving of the two images brought to that size.
pub fn merge_images(image1: DecodedImage, image2: DecodedImage, output: String) -> (r: Result<ImageObject, ImageDataError>)
    requires
        image1.wf(),
        image2.wf(),
        reconcilable(image1, image2),
    ensures
        r is Err <==> image1.format != image2.format,
        r is Err ==> r->Err_0 is DifferentImageFormats,
        r is Ok ==> ({
            let merged = r->Ok_0;
            let (pixels1, pixels2) = reconciled_pixels(image1, image2);
            &&& (merged.width, merged.height) == smallest(image1.dims(), image2.dims())
            &&& merged.name == output
            &&& merged.data@ == interleaved(pixels1, pixels2)
            &&& merged.wf()
        }),
{
    if !same_format(&image1.format, &image2.format) {
        return Err(ImageDataError::DifferentImageFormats);
    }

    let (image1, image2) = standardise_size(image1, image2);
    let mut merged = ImageObject::new(image1.width, image1.height, output);

    let combine_data = combine_images(image1, image2);

    match merged.set_data(combine_data) {
        Ok(()) => Ok(merged),
        Err(e) => Err(e),
    }
}

} // verus!
