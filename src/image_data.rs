//! The output pixel buffer and the library's error type.

use vstd::prelude::*;

verus! {

/// `std::io::Error`, carried unopened when an input cannot be opened.
#[verifier::external_type_specification]
#[verifier::external_body]
pub struct ExIoError(std::io::Error);

/// `image::ImageError`, carried unopened when decoding or encoding fails.
#[verifier::external_type_specification]
#[verifier::external_body]
pub struct ExImageError(image::ImageError);

/// Why a run of the merge failed.
#[derive(Debug)]
pub enum ImageDataError {
    /// The two inputs were encoded in different formats.
    DifferentImageFormats,
    /// The data handed to an output buffer exceeds its capacity.
    BufferTooSmall,
    /// An input could not be opened.
    UnableToOpenImageFromPath(std::io::Error),
    /// The format of the input at this path could not be determined.
    UnableToFormatImage(String),
    /// An input's bytes are not a valid image.
    UnableToDecodeImage(image::ImageError),
    /// The output could not be written.
    UnableToSaveImage(image::ImageError),
}

/// The merged image: its dimensions, its RGBA8 bytes and the name under
/// which it is saved. Its capacity is fixed by its dimensions.
pub struct ImageObject {
    pub width: u32,
    pub height: u32,
    pub data: Vec<u8>,
    pub name: String,
}

/// Bytes needed for a `width` by `height` RGBA8 image.
pub open spec fn rgba_len(width: u32, height: u32) -> nat {
    (width * height * 4) as nat
}

/// The byte count of an image fits easily in a `u128`.
proof fn lemma_rgba_len_bound(width: u32, height: u32)
    ensures
        (height as int) * (width as int) * 4 == rgba_len(width, height),
        (width as int) * (height as int) * 4 <= 0x4_0000_0000_0000_0000,
{
    assert((width as int) * (height as int) <= 0x1_0000_0000 * 0x1_0000_0000) by (nonlinear_arith)
        requires
            width <= 0x1_0000_0000,
            height <= 0x1_0000_0000,
    ;
    assert((height as int) * (width as int) == (width as int) * (height as int)) by (nonlinear_arith);
}

impl ImageObject {
    /// The largest number of bytes the buffer may hold.
    pub open spec fn capacity(&self) -> nat {
        rgba_len(self.width, self.height)
    }

    /// The buffer never holds more than its capacity.
    pub open spec fn wf(&self) -> bool {
        self.data@.len() <= self.capacity()
    }

    /// An empty buffer for a `width` by `height` image, with room reserved
    /// for all its bytes.
    pub fn new(width: u32, height: u32, name: String) -> (r: Self)
        requires
            rgba_len(width, height) <= usize::MAX,
        ensures
            r.width == width,
            r.height == height,
            r.name == name,
            r.data@.len() == 0,
            r.wf(),
    {
        proof {
            lemma_rgba_len_bound(width, height);
        }
        let buffer_capacity: u128 = (height as u128) * (width as u128) * 4;
        let buffer: Vec<u8> = Vec::with_capacity(buffer_capacity as usize);

        ImageObject { width, height, data: buffer, name }
    }

    /// Installs `data` as the buffer's contents, all or nothing: it fails
    /// with `BufferTooSmall`, and leaves the buffer as it was, exactly when
    /// `data` is longer than the capacity.
    pub fn set_data(&mut self, data: Vec<u8>) -> (r: Result<(), ImageDataError>)
        ensures
            data@.len() > old(self).capacity() <==> r is Err,
            r is Err ==> r->Err_0 is BufferTooSmall && *final(self) == *old(self),
            r is Ok ==> final(self).data@ == data@ && final(self).width == old(self).width
                && final(self).height == old(self).height && final(self).name == old(self).name,
            r is Ok ==> final(self).wf(),
    {
        proof {
            lemma_rgba_len_bound(self.width, self.height);
        }
        let capacity: u128 = (self.width as u128) * (self.height as u128) * 4;
        if data.len() as u128 > capacity {
            return Err(ImageDataError::BufferTooSmall);
        }

        self.data = data;
        Ok(())
    }
}

} // verus!
