//! The texture: an encoded image is decoded to 8-bit RGBA and checked to be
//! something the GPU can be handed.

use vstd::prelude::*;

verus! {

/// Trusted: the `image` crate's error type, carried through as an opaque value.
#[verifier::external_type_specification]
#[verifier::external_body]
pub struct ExImageError(image::ImageError);

/// Trusted: the `image` crate's decoded image, carried through as an opaque
/// value.
#[verifier::external_type_specification]
#[verifier::external_body]
pub struct ExDynamicImage(image::DynamicImage);

/// Trusted: `image::load_from_memory`, which guesses the format of `bytes`
/// and decodes them. Nothing is claimed of the result: besides the bytes, the
/// guess consults a process-wide registry of format hooks, so equal bytes need
/// not decode alike in every process.
#[verifier::external_body]
fn decode(bytes: &[u8]) -> (decoded: Result<image::DynamicImage, image::ImageError>) {
    image::load_from_memory(bytes)
}

/// Trusted: `GenericImageView::dimensions` of a decoded image, as (width,
/// height). Nothing is claimed of the result.
#[verifier::external_body]
fn dimensions(picture: &image::DynamicImage) -> (size: (u32, u32)) {
    image::GenericImageView::dimensions(picture)
}

/// Trusted: `DynamicImage::into_rgba8` followed by `ImageBuffer::into_raw`,
/// the image's samples as 8-bit RGBA in row order. Nothing is claimed of the
/// result.
#[verifier::external_body]
fn into_rgba8_bytes(picture: image::DynamicImage) -> (samples: Vec<u8>) {
    picture.into_rgba8().into_raw()
}

/// Why no texture could be made.
#[derive(PartialEq, Eq, Structural, Clone, Copy, Debug)]
pub enum TextureError {
    /// The bytes are not an image that the decoder reads.
    Decode,
    /// A side is longer than `i32::MAX` texels, the most the GPU interface
    /// can be told.
    TooLarge,
    /// There are fewer than four sample bytes per texel.
    Truncated,
}

/// What a texture is: its size in texels and its samples, four bytes (red,
/// green, blue, alpha) per texel, rows from first to last.
pub struct TextureModel {
    pub width: int,
    pub height: int,
    pub samples: Seq<u8>,
}

impl TextureModel {
    /// The sides fit the GPU interface and the samples are exactly those of
    /// `width * height` texels.
    pub open spec fn packed(self) -> bool {
        &&& 0 <= self.width <= i32::MAX
        &&& 0 <= self.height <= i32::MAX
        &&& self.samples.len() == rgba8_len(self.width, self.height)
    }
}

/// Number of sample bytes of a `width` by `height` image in 8-bit RGBA.
pub open spec fn rgba8_len(width: int, height: int) -> int {
    4 * width * height
}

/// The texture that a decoded image gives: none if a side is too long or
/// samples are missing, else the image with its samples cut to what its
/// texels need.
pub open spec fn texture_of(width: u32, height: u32, samples: Seq<u8>) -> Result<
    TextureModel,
    TextureError,
> {
    if width > i32::MAX || height > i32::MAX {
        Err(TextureError::TooLarge)
    } else if samples.len() < rgba8_len(width as int, height as int) {
        Err(TextureError::Truncated)
    } else {
        Ok(
            TextureModel {
                width: width as int,
                height: height as int,
                samples: samples.take(rgba8_len(width as int, height as int)),
            },
        )
    }
}

/// An image ready for upload as a two-dimensional RGBA texture. Every value
/// of this type is packed: reading `4 * width * height` bytes of its samples
/// stays inside them.
pub struct TextureImage {
    width: i32,
    height: i32,
    samples: Vec<u8>,
}

impl View for TextureImage {
    type V = TextureModel;

    closed spec fn view(&self) -> TextureModel {
        TextureModel {
            width: self.width as int,
            height: self.height as int,
            samples: self.samples@,
        }
    }
}

impl TextureImage {
    #[verifier::type_invariant]
    spec fn well_formed(self) -> bool {
        self@.packed()
    }

    /// Makes a texture of a decoded image, given its size and its samples.
    pub fn from_rgba8(width: u32, height: u32, samples: Vec<u8>) -> (made: Result<
        TextureImage,
        TextureError,
    >)
        ensures
            match made {
                Ok(texture) => texture_of(width, height, samples@) == Ok::<
                    TextureModel,
                    TextureError,
                >(texture@) && texture@.packed(),
                Err(error) => texture_of(width, height, samples@) == Err::<
                    TextureModel,
                    TextureError,
                >(error),
            },
    {
        if width > 0x7FFF_FFFF || height > 0x7FFF_FFFF {
            return Err(TextureError::TooLarge);
        }
        assert(width as u64 * height as u64 <= 0x3FFF_FFFF_0000_0001) by (nonlinear_arith)
            requires
                width <= 0x7FFF_FFFF,
                height <= 0x7FFF_FFFF,
        ;
        let texels: u64 = width as u64 * height as u64;
        let needed: u64 = 4 * texels;
        assert(needed == rgba8_len(width as int, height as int)) by (nonlinear_arith)
            requires
                needed == 4 * texels,
                texels == width as u64 * height as u64,
        ;
        if (samples.len() as u64) < needed {
            return Err(TextureError::Truncated);
        }
        let mut samples = samples;
        samples.truncate(needed as usize);
        Ok(TextureImage { width: width as i32, height: height as i32, samples })
    }

    /// Width in texels.
    pub fn width(&self) -> (width: i32)
        ensures
            width == self@.width,
            0 <= width,
    {
        proof {
            use_type_invariant(self);
        }
        self.width
    }

    /// Height in texels.
    pub fn height(&self) -> (height: i32)
        ensures
            height == self@.height,
            0 <= height,
    {
        proof {
            use_type_invariant(self);
        }
        self.height
    }

    /// The samples, exactly four bytes for each texel.
    pub fn samples(&self) -> (samples: &[u8])
        ensures
            samples@ == self@.samples,
            samples@.len() == rgba8_len(self@.width, self@.height),
    {
        proof {
            use_type_invariant(self);
        }
        self.samples.as_slice()
    }
}

/// Decodes an encoded image and makes a texture of it with
/// [`TextureImage::from_rgba8`]. Whether the bytes decode, and to what, is the
/// decoder's business, so the contract says only what holds whatever the
/// decoder gives: a texture that comes back is packed.
pub fn load_texture(bytes: &[u8]) -> (loaded: Result<TextureImage, TextureError>)
    ensures
        loaded matches Ok(texture) ==> texture@.packed(),
{
    match decode(bytes) {
        Ok(picture) => {
            let (width, height) = dimensions(&picture);
            let samples = into_rgba8_bytes(picture);
            TextureImage::from_rgba8(width, height, samples)
        },
        Err(_) => Err(TextureError::Decode),
    }
}

} // verus!
