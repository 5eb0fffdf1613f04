//! The boundary to the image crates: what this library takes on trust from
//! `image` and `fast_image_resize`, stated over plain values, and the limits
//! within which it calls them.
//!
//! The two wrappers at the end of this file are not proved. Each names the
//! outside functions it stands for and says what is claimed of them.
use fast_image_resize::{FilterType, Image, PixelType, ResizeAlg, Resizer};
use image::{DynamicImage, RgbImage};
use std::num::NonZeroU32;
use vstd::prelude::*;

verus! {

/// How a resampling stage picks the colour of a target pixel.
#[derive(Debug, Clone, Copy, PartialEq, Eq, Structural)]
pub enum Resampling {
    /// Nearest neighbour: every target pixel is a copy of one source pixel.
    Nearest,
    /// Box convolution: every target pixel averages the source pixels it
    /// covers.
    Box,
}

/// A width and height that the resampler can hold as an image: both
/// positive, the pixel count within its 32-bit arithmetic, the bytes of the
/// pixels within what one vector holds, and the sides short enough for its
/// tables of rows and weights, which take some bytes for each row and column.
pub open spec fn resamplable(width: nat, height: nat) -> bool {
    &&& width > 0
    &&& height > 0
    &&& width * height <= u32::MAX
    &&& width * height * 3 <= isize::MAX
    &&& 64 * (width + height) <= isize::MAX
}

/// Whether the resampler can hold the scratch image of a box convolution
/// from a source `src_width` wide to a target `height` high: the convolution
/// first scales the columns it reads to the height of the target, and keeps
/// that image with room for one pixel more.
pub open spec fn scratch_fits(src_width: nat, height: nat) -> bool {
    &&& src_width * height <= u32::MAX
    &&& src_width * height * 3 + 3 <= isize::MAX
}

/// Most rows that a target of nearest neighbour may have. The resampler
/// finds the source row of each target row by adding the step from row to
/// row once more, in floating point; up to this many additions the rounding
/// stays below half a step, and the position inside the source.
pub const NEAREST_MAX_ROWS: u32 = 0x400_0000;

/// Whether the resampler can take a `src_width` by `src_height` image to
/// `width` by `height` with the algorithm `filter`: it can hold both images
/// and, for a box convolution, the scratch image between them; by nearest
/// neighbour the target has no more rows than it can step through.
pub open spec fn can_be_resampled(
    src_width: nat,
    src_height: nat,
    width: nat,
    height: nat,
    filter: Resampling,
) -> bool {
    &&& resamplable(src_width, src_height)
    &&& resamplable(width, height)
    &&& filter == Resampling::Box ==> scratch_fits(src_width, height)
    &&& filter == Resampling::Nearest ==> height <= NEAREST_MAX_ROWS
}

/// The luminance that `image` gives a pixel of the given red, green and blue:
/// the weighted sum of the three with weights 0.2126, 0.7152 and 0.0722,
/// rounded down.
pub open spec fn luma_of(red: u8, green: u8, blue: u8) -> u8 {
    ((2126 * red + 7152 * green + 722 * blue) / 10000) as u8
}

/// The luminance grid of a colour grid: one sample for each whole pixel.
pub open spec fn luma_plane(rgb: Seq<u8>) -> Seq<u8> {
    Seq::new(
        (rgb.len() / 3) as nat,
        |i: int| luma_of(rgb[3 * i], rgb[3 * i + 1], rgb[3 * i + 2]),
    )
}

/// The bytes that `fast_image_resize` computes when it resamples the
/// `src_width` by `src_height` grid of colour pixels `pixels` to `width` by
/// `height` by nearest neighbour.
pub uninterp spec fn nearest_rgb8(
    src_width: nat,
    src_height: nat,
    pixels: Seq<u8>,
    width: nat,
    height: nat,
) -> Seq<u8>;

/// `image::DynamicImage::into_luma8` on an 8-bit colour image, followed by
/// `ImageBuffer::into_raw`.
///
/// `image` allocates one byte for each pixel and sets it to the integer
/// quotient of `2126 * red + 7152 * green + 722 * blue` by 10000. The bytes
/// handed in must be exactly those of a `width` by `height` image, and the
/// bytes of one row must be countable, else the image cannot be formed:
/// `ImageBuffer::from_raw` counts the bytes of a row before it counts the
/// rows.
#[verifier::external_body]
pub(crate) fn luma8_bytes(width: u32, height: u32, pixels: Vec<u8>) -> (luma: Vec<u8>)
    requires
        pixels@.len() == width as nat * height as nat * 3,
        3 * width as nat <= usize::MAX,
    ensures
        luma@ == luma_plane(pixels@),
{
    let rgb = RgbImage::from_raw(width, height, pixels).unwrap();
    DynamicImage::ImageRgb8(rgb).into_luma8().into_raw()
}

/// `fast_image_resize::Resizer::resize` between two images of 8-bit colour
/// pixels, with `Image::from_vec_u8` to hand the source over, `Image::new` to
/// make room for the target and `Image::into_vec` to take the target back.
///
/// What is claimed:
/// * The call succeeds on a buffer that holds the source. `from_vec_u8`
///   refuses a buffer that is too short or not aligned for its pixels, and
///   pixels of three bytes have alignment 1; `resize` refuses two images of
///   different pixel types, and both are of the one type here.
/// * On success the bytes are those of the target image, which was allocated
///   with three bytes for each of its pixels.
/// * By nearest neighbour the bytes depend only on the arguments: every
///   target pixel is a copy of the source pixel that fixed arithmetic on the
///   sizes picks. Nothing of the kind is claimed of a box convolution, whose
///   code is chosen by what the processor offers.
/// * On failure the text is the `Debug` rendering of the crate's error.
///
/// The crate takes every side as non-zero, multiplies width by height in 32
/// bits, for the two images and for the scratch image of a box convolution,
/// and allocates the target, the scratch image and its tables of rows and
/// weights; the precondition leaves out the sizes on which any of that
/// overflows. By nearest neighbour it steps through the source rows by
/// repeated addition in floating point and reads the row it arrives at
/// unchecked; the precondition leaves out the targets with so many rows that
/// the rounding could carry the position past the last source row.
#[verifier::external_body]
pub(crate) fn resample_rgb8(
    src_width: u32,
    src_height: u32,
    pixels: Vec<u8>,
    width: u32,
    height: u32,
    filter: Resampling,
) -> (outcome: Result<Vec<u8>, String>)
    requires
        can_be_resampled(
            src_width as nat,
            src_height as nat,
            width as nat,
            height as nat,
            filter,
        ),
    ensures
        pixels@.len() >= src_width as nat * src_height as nat * 3 ==> outcome is Ok,
        outcome matches Ok(bytes) ==> {
            &&& bytes@.len() == width as nat * height as nat * 3
            &&& filter == Resampling::Nearest ==> bytes@ == nearest_rgb8(
                src_width as nat,
                src_height as nat,
                pixels@,
                width as nat,
                height as nat,
            )
        },
{
    let algorithm = match filter {
        Resampling::Nearest => ResizeAlg::Nearest,
        Resampling::Box => ResizeAlg::Convolution(FilterType::Box),
    };
    let (src_w, src_h) = (NonZeroU32::new(src_width).unwrap(), NonZeroU32::new(src_height).unwrap());
    let source = match Image::from_vec_u8(src_w, src_h, pixels, PixelType::U8x3) {
        Ok(image) => image,
        Err(e) => return Err(format!("{e:?}")),
    };
    let mut target =
        Image::new(NonZeroU32::new(width).unwrap(), NonZeroU32::new(height).unwrap(), PixelType::U8x3);
    match Resizer::new(algorithm).resize(&source.view(), &mut target.view_mut()) {
        Ok(()) => Ok(target.into_vec()),
        Err(e) => Err(format!("{e:?}")),
    }
}

} // verus!
