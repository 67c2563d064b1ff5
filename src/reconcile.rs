//! The size reconciler: brings two decoded images to one common size.

use crate::image_data::rgba_len;
use vstd::prelude::*;

verus! {

/// `image::ImageFormat`, the format tag of a decoded input; only compared.
#[verifier::external_type_specification]
#[verifier::external_body]
pub struct ExImageFormat(image::ImageFormat);

/// A decoded input: its dimensions, its pixels as RGBA8 bytes in row-major
/// order, and the format it was encoded in.
pub struct DecodedImage {
    pub width: u32,
    pub height: u32,
    pub data: Vec<u8>,
    pub format: image::ImageFormat,
}

impl DecodedImage {
    /// Both dimensions are positive and the bytes are exactly the image's
    /// pixels.
    pub open spec fn wf(&self) -> bool {
        &&& self.width > 0
        &&& self.height > 0
        &&& self.data.len() == rgba_len(self.width, self.height)
        &&& rgba_len(self.width, self.height) <= isize::MAX
    }

    pub open spec fn dims(&self) -> (u32, u32) {
        (self.width, self.height)
    }
}

/// The number of pixels of an image of dimensions `d`.
pub open spec fn area(d: (u32, u32)) -> int {
    d.0 * d.1
}

/// The common size: the dimensions with the smaller area, the first ones
/// when the areas are equal.
pub open spec fn smallest(d1: (u32, u32), d2: (u32, u32)) -> (u32, u32) {
    if area(d1) <= area(d2) {
        d1
    } else {
        d2
    }
}

/// The RGBA8 bytes that resampling `pixels`, an image of `width` by
/// `height`, to `new_width` by `new_height` with a triangle filter gives.
pub uninterp spec fn resized_rgba(pixels: Seq<u8>, width: u32, height: u32, new_width: u32, new_height: u32) -> Seq<u8>;

/// Resampling an image `width` pixels wide to `new_height` rows holds an
/// intermediate of `width * new_height` pixels of four `f32` channels,
/// which must fit in memory.
pub open spec fn resize_fits(width: u32, new_height: u32) -> bool {
    width * new_height * 16 <= isize::MAX
}

/// The pixels of the two images once brought to their common size: the
/// image that sets the size is kept, the other one is resampled.
pub open spec fn reconciled_pixels(a: DecodedImage, b: DecodedImage) -> (Seq<u8>, Seq<u8>) {
    if area(a.dims()) <= area(b.dims()) {
        (a.data@, resized_rgba(b.data@, b.width, b.height, a.width, a.height))
    } else {
        (resized_rgba(a.data@, a.width, a.height, b.width, b.height), b.data@)
    }
}

/// The one image of the two that gets resampled can be resampled in memory.
pub open spec fn reconcilable(a: DecodedImage, b: DecodedImage) -> bool {
    if area(a.dims()) <= area(b.dims()) {
        resize_fits(b.width, a.height)
    } else {
        resize_fits(a.width, b.height)
    }
}

/// Relies on image::ImageBuffer::from_raw, image::imageops::resize with
/// FilterType::Triangle, and ImageBuffer::into_raw: the result holds
/// `new_width * new_height` RGBA8 pixels, depends on the arguments alone,
/// and is a copy of the input when the dimensions do not change.
#[verifier::external_body]
fn resize_exact(pixels: Vec<u8>, width: u32, height: u32, new_width: u32, new_height: u32) -> (r: Vec<u8>)
    requires
        width > 0,
        height > 0,
        new_width > 0,
        new_height > 0,
        pixels@.len() == rgba_len(width, height),
        rgba_len(new_width, new_height) <= isize::MAX,
        resize_fits(width, new_height),
    ensures
        r@ == resized_rgba(pixels@, width, height, new_width, new_height),
        r@.len() == rgba_len(new_width, new_height),
        new_width == width && new_height == height ==> r@ == pixels@,
{
    let source = image::RgbaImage::from_raw(width, height, pixels).expect("buffer matches its dimensions");
    image::imageops::resize(&source, new_width, new_height, image::imageops::FilterType::Triangle).into_raw()
}

/// The area of any pair of `u32` dimensions fits in a `u64`.
proof fn lemma_area_fits(d: (u32, u32))
    ensures
        0 <= area(d) <= u64::MAX,
{
    assert(0 <= (d.0 as int) * (d.1 as int) <= 0xffff_ffff * 0xffff_ffff) by (nonlinear_arith)
        requires
            d.0 <= 0xffff_ffff,
            d.1 <= 0xffff_ffff,
    ;
}

/// Returns whichever of two dimension pairs has the smaller area; the
/// first one when the areas are equal.
pub fn get_smallest_image(dim_image1: (u32, u32), dim_image2: (u32, u32)) -> (r: (u32, u32))
    ensures
        r == smallest(dim_image1, dim_image2),
{
    proof {
        lemma_area_fits(dim_image1);
        lemma_area_fits(dim_image2);
    }
    let pixels_1: u64 = (dim_image1.0 as u64) * (dim_image1.1 as u64);
    let pixels_2: u64 = (dim_image2.0 as u64) * (dim_image2.1 as u64);

    if pixels_1 <= pixels_2 {
        dim_image1
    } else {
        dim_image2
    }
}

/// Brings two images to a common size: the one with the smaller area (the
/// first on a tie) is kept as it is, and the other is resampled to exactly
/// its width and height, without keeping its aspect ratio.
pub fn standardise_size(image1: DecodedImage, image2: DecodedImage) -> (r: (DecodedImage, DecodedImage))
    requires
        image1.wf(),
        image2.wf(),
        reconcilable(image1, image2),
    ensures
        r.0.dims() == smallest(image1.dims(), image2.dims()),
        r.1.dims() == r.0.dims(),
        r.0.wf(),
        r.1.wf(),
        r.0.format == image1.format,
        r.1.format == image2.format,
        (r.0.data@, r.1.data@) == reconciled_pixels(image1, image2),
{
    let (width, height) = get_smallest_image((image1.width, image1.height), (image2.width, image2.height));

    if image1.width == width && image1.height == height {
        let DecodedImage { width: w2, height: h2, data, format } = image2;
        let data = resize_exact(data, w2, h2, width, height);
        (image1, DecodedImage { width, height, data, format })
    } else {
        let DecodedImage { width: w1, height: h1, data, format } = image1;
        let data = resize_exact(data, w1, h1, width, height);
        (DecodedImage { width, height, data, format }, image2)
    }
}

} // verus!
