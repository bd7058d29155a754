//! Enlarging decoded images: reading their pixels for the engine, and
//! building an image from what the engine returns.

use vstd::prelude::*;
use image::DynamicImage;
use image::ImageBuffer;
use crate::error::Error;
use crate::realesrgan::RealEsrgan;
use crate::realesrgan::Transform;

verus! {

/// How the pixels of an image are laid out, as far as this crate tells
/// layouts apart.
#[derive(Debug, Clone, Copy, PartialEq, Eq, Structural)]
pub enum ColorLayout {
    /// One byte of luminance.
    L8,
    /// One byte of luminance, one of alpha.
    La8,
    /// One byte each of red, green and blue.
    Rgb8,
    /// One byte each of red, green, blue and alpha.
    Rgba8,
    /// Any other layout.
    Other,
}

impl ColorLayout {
    /// The layout in which an image of this layout is rebuilt after it was
    /// enlarged: its own, but `Rgb8` for a layout that is not told apart.
    pub open spec fn rebuilt(self) -> ColorLayout {
        match self {
            ColorLayout::Other => ColorLayout::Rgb8,
            layout => layout,
        }
    }

    /// The bytes that a pixel takes in the layout in which the image is
    /// rebuilt.
    pub open spec fn channel_count(self) -> int {
        match self {
            ColorLayout::L8 => 1,
            ColorLayout::La8 => 2,
            ColorLayout::Rgb8 => 3,
            ColorLayout::Rgba8 => 4,
            ColorLayout::Other => 3,
        }
    }

    /// The bytes that a pixel takes in the layout in which the image is
    /// rebuilt.
    pub fn channels(&self) -> (count: u8)
        ensures
            count == self.channel_count(),
    {
        match self {
            ColorLayout::L8 => 1,
            ColorLayout::La8 => 2,
            ColorLayout::Rgb8 => 3,
            ColorLayout::Rgba8 => 4,
            ColorLayout::Other => 3,
        }
    }
}

/// `image::DynamicImage`, an image in one of several layouts. Nothing is
/// known of it here but what `raw_of`, `color_of`, `width_of`, `height_of`
/// and `rgb8_of` name.
#[verifier::external_type_specification]
#[verifier::external_body]
pub struct ExDynamicImage(DynamicImage);

/// The bytes that `image` holds, which `DynamicImage::as_bytes` gives: its
/// pixels row by row, the channels of a pixel side by side.
pub uninterp spec fn raw_of(image: DynamicImage) -> Seq<u8>;

/// The layout of `image`, after `DynamicImage::color`.
pub uninterp spec fn color_of(image: DynamicImage) -> ColorLayout;

/// The width of `image` in pixels, which `DynamicImage::width` gives.
pub uninterp spec fn width_of(image: DynamicImage) -> u32;

/// The height of `image` in pixels, which `DynamicImage::height` gives.
pub uninterp spec fn height_of(image: DynamicImage) -> u32;

/// The pixels of `image` converted to three bytes each, red, green and
/// blue, row by row, as `DynamicImage::to_rgb8` converts them.
pub uninterp spec fn rgb8_of(image: DynamicImage) -> Seq<u8>;

/// Whether a buffer of `len` bytes holds a `width` by `height` image of
/// `channels` bytes per pixel: the bytes of a row can be counted in `usize`,
/// and the buffer has at least as many bytes as the image.
pub open spec fn holds_image(channels: int, width: int, height: int, len: int) -> bool {
    channels * width <= usize::MAX && channels * width * height <= len
}

/// `DynamicImage::color`, which returns the color type that belongs to the
/// image's variant. The four 8-bit types are told apart; the 16-bit and
/// float types all count as `Other`.
#[verifier::external_body]
fn image_color(image: &DynamicImage) -> (layout: ColorLayout)
    ensures
        layout == color_of(*image),
{
    match image.color() {
        image::ColorType::L8 => ColorLayout::L8,
        image::ColorType::La8 => ColorLayout::La8,
        image::ColorType::Rgb8 => ColorLayout::Rgb8,
        image::ColorType::Rgba8 => ColorLayout::Rgba8,
        _ => ColorLayout::Other,
    }
}

/// `DynamicImage::width`, which returns the width that the image was made
/// with.
#[verifier::external_body]
fn image_width(image: &DynamicImage) -> (width: u32)
    ensures
        width == width_of(*image),
{
    image.width()
}

/// `DynamicImage::height`, which returns the height that the image was made
/// with.
#[verifier::external_body]
fn image_height(image: &DynamicImage) -> (height: u32)
    ensures
        height == height_of(*image),
{
    image.height()
}

/// `DynamicImage::to_rgb8`, and `ImageBuffer::into_raw` on what it returns.
/// An `Rgb8` image is copied as it is, so the result is the bytes that the
/// image holds, which are at least three per pixel. Any other image is
/// converted into a new buffer of exactly three bytes per pixel. The
/// conversion panics where the length of a row or of that buffer cannot be
/// computed or the buffer cannot be allocated: such an image is left out.
#[verifier::external_body]
fn image_to_rgb8(image: &DynamicImage) -> (bytes: Vec<u8>)
    requires
        3 * width_of(*image) <= usize::MAX,
        3 * width_of(*image) * height_of(*image) <= isize::MAX,
    ensures
        bytes@ == rgb8_of(*image),
        color_of(*image) == ColorLayout::Rgb8 ==> bytes@ == raw_of(*image),
        bytes@.len() >= 3 * width_of(*image) * height_of(*image),
        color_of(*image) != ColorLayout::Rgb8 ==> bytes@.len() == 3 * width_of(*image)
            * height_of(*image),
{
    image.to_rgb8().into_raw()
}

/// `ImageBuffer::from_raw` for one byte of luminance per pixel, wrapped as
/// `DynamicImage::ImageLuma8`. The buffer is taken if it holds at least
/// `width * height` bytes, and is then held as it is. The length of a row,
/// `width`, always fits `usize`.
#[verifier::external_body]
fn luma8_from_raw(width: u32, height: u32, bytes: Vec<u8>) -> (image: Option<DynamicImage>)
    ensures
        image is Some <==> holds_image(1, width as int, height as int, bytes@.len() as int),
        image matches Some(made) ==> holds(made, ColorLayout::L8, width, height, bytes@),
{
    ImageBuffer::from_raw(width, height, bytes).map(DynamicImage::ImageLuma8)
}

/// `ImageBuffer::from_raw` for luminance and alpha, wrapped as
/// `DynamicImage::ImageLumaA8`. The buffer is taken if the length of a row,
/// `2 * width`, fits `usize` and the buffer holds at least
/// `2 * width * height` bytes, and is then held as it is.
#[verifier::external_body]
fn luma_alpha8_from_raw(width: u32, height: u32, bytes: Vec<u8>) -> (image: Option<DynamicImage>)
    ensures
        image is Some <==> holds_image(2, width as int, height as int, bytes@.len() as int),
        image matches Some(made) ==> holds(made, ColorLayout::La8, width, height, bytes@),
{
    ImageBuffer::from_raw(width, height, bytes).map(DynamicImage::ImageLumaA8)
}

/// `ImageBuffer::from_raw` for red, green and blue, wrapped as
/// `DynamicImage::ImageRgb8`. The buffer is taken if the length of a row,
/// `3 * width`, fits `usize` and the buffer holds at least
/// `3 * width * height` bytes, and is then held as it is.
#[verifier::external_body]
fn rgb8_from_raw(width: u32, height: u32, bytes: Vec<u8>) -> (image: Option<DynamicImage>)
    ensures
        image is Some <==> holds_image(3, width as int, height as int, bytes@.len() as int),
        image matches Some(made) ==> holds(made, ColorLayout::Rgb8, width, height, bytes@),
{
    ImageBuffer::from_raw(width, height, bytes).map(DynamicImage::ImageRgb8)
}

/// `ImageBuffer::from_raw` for red, green, blue and alpha, wrapped as
/// `DynamicImage::ImageRgba8`. The buffer is taken if the length of a row,
/// `4 * width`, fits `usize` and the buffer holds at least
/// `4 * width * height` bytes, and is then held as it is.
#[verifier::external_body]
fn rgba8_from_raw(width: u32, height: u32, bytes: Vec<u8>) -> (image: Option<DynamicImage>)
    ensures
        image is Some <==> holds_image(4, width as int, height as int, bytes@.len() as int),
        image matches Some(made) ==> holds(made, ColorLayout::Rgba8, width, height, bytes@),
{
    ImageBuffer::from_raw(width, height, bytes).map(DynamicImage::ImageRgba8)
}

/// Whether `image` is a `width` by `height` image of `layout` that holds
/// `bytes`.
pub open spec fn holds(
    image: DynamicImage,
    layout: ColorLayout,
    width: u32,
    height: u32,
    bytes: Seq<u8>,
) -> bool {
    &&& color_of(image) == layout
    &&& width_of(image) == width
    &&& height_of(image) == height
    &&& raw_of(image) == bytes
}

/// An image as the engine takes it: its size, its pixels as red, green and
/// blue bytes, and the layout that it had before.
#[derive(Debug)]
pub struct Pixels {
    pub layout: ColorLayout,
    pub width: u32,
    pub height: u32,
    pub rgb: Vec<u8>,
}

/// Whether the pixels of a `width` by `height` image can be held as three
/// bytes each: the bytes of a row can be counted in `usize`, and those of
/// the image in `isize`.
pub open spec fn fits_as_rgb8(width: int, height: int) -> bool {
    3 * width <= usize::MAX && 3 * width * height <= isize::MAX
}

/// Reads `image` for the engine, converting its pixels to red, green and
/// blue bytes. `None` says that the image is too large for the converted
/// pixels to be held, see `fits_as_rgb8`.
///
/// The pixels of an `Rgb8` image are the bytes that the image holds, all of
/// them, which may be more than three per pixel. Every other image gives
/// exactly three bytes per pixel.
pub fn read_image(image: &DynamicImage) -> (pixels: Option<Pixels>)
    ensures
        pixels is Some <==> fits_as_rgb8(width_of(*image) as int, height_of(*image) as int),
        pixels matches Some(read) ==> {
            &&& read.layout == color_of(*image)
            &&& read.width == width_of(*image)
            &&& read.height == height_of(*image)
            &&& read.rgb@ == rgb8_of(*image)
            &&& read.layout == ColorLayout::Rgb8 ==> read.rgb@ == raw_of(*image)
            &&& read.rgb@.len() >= 3 * read.width * read.height
            &&& read.layout != ColorLayout::Rgb8 ==> read.rgb@.len() == 3 * read.width
                * read.height
        },
{
    let layout = image_color(image);
    let width = image_width(image);
    let height = image_height(image);
    assert(3 * (width as u128) * (height as u128) <= 3 * 0xffff_ffff * 0xffff_ffff)
        by (nonlinear_arith);
    if 3 * (width as u128) > usize::MAX as u128 {
        return None;
    }
    if 3 * (width as u128) * (height as u128) > isize::MAX as u128 {
        return None;
    }
    let rgb = image_to_rgb8(image);
    Some(Pixels { layout, width, height, rgb })
}

/// Whether `len` bytes fill a `width` by `height` image in the layout in
/// which an image of `layout` is rebuilt: they are exactly as many as the
/// image has, and the bytes of a row can be counted in `usize`.
pub open spec fn fills(layout: ColorLayout, width: int, height: int, len: int) -> bool {
    &&& layout.channel_count() * width <= usize::MAX
    &&& len == layout.channel_count() * width * height
}

/// Builds a `width` by `height` image from `bytes`, in the layout in which
/// an image of `layout` is rebuilt. The bytes must fill the image exactly,
/// see `fills`: with too few or too many, or with a row too long to count,
/// the result is `ColorConversionFailed`.
pub fn rebuild(layout: ColorLayout, width: u32, height: u32, bytes: Vec<u8>) -> (result: Result<
    DynamicImage,
    Error,
>)
    ensures
        result is Ok <==> fills(layout, width as int, height as int, bytes@.len() as int),
        result matches Ok(image) ==> holds(image, layout.rebuilt(), width, height, bytes@),
        result matches Err(error) ==> error == Error::ColorConversionFailed,
{
    let channels = layout.channels();
    if (channels as u128) * (width as u128) > usize::MAX as u128 {
        return Err(Error::ColorConversionFailed);
    }
    assert(width * height <= 0xffff_ffff * 0xffff_ffff) by (nonlinear_arith);
    let area = (width as u64) * (height as u64);
    let exact = (channels as u128) * (area as u128);
    assert(exact == layout.channel_count() * width * height) by (nonlinear_arith)
        requires
            exact == channels * area,
            area == width * height,
            channels == layout.channel_count(),
    ;
    if bytes.len() as u128 != exact {
        return Err(Error::ColorConversionFailed);
    }
    let made = match layout {
        ColorLayout::L8 => luma8_from_raw(width, height, bytes),
        ColorLayout::La8 => luma_alpha8_from_raw(width, height, bytes),
        ColorLayout::Rgb8 => rgb8_from_raw(width, height, bytes),
        ColorLayout::Rgba8 => rgba8_from_raw(width, height, bytes),
        ColorLayout::Other => rgb8_from_raw(width, height, bytes),
    };
    match made {
        Some(image) => Ok(image),
        None => Err(Error::ColorConversionFailed),
    }
}

/// The enlargement of an image, made ready: the call to make on the
/// engine, and the layout and the size in which the image is rebuilt from
/// what the engine returns.
#[derive(Debug)]
pub struct ImageTransform {
    pub layout: ColorLayout,
    pub width: u32,
    pub height: u32,
    pub transform: Transform,
}

impl ImageTransform {
    /// Ends the call with the status that the engine returned. A status
    /// other than 0 gives `ProcessingFailed`. Otherwise the image is rebuilt
    /// from the buffer as `rebuild` does.
    pub fn complete(self, code: i32) -> (result: Result<DynamicImage, Error>)
        ensures
            code != 0 ==> (result matches Err(error) && error == (Error::ProcessingFailed {
                code,
            })),
            code == 0 ==> {
                &&& result is Ok <==> fills(
                    self.layout,
                    self.width as int,
                    self.height as int,
                    self.transform.output@.len() as int,
                )
                &&& result matches Ok(image) ==> holds(
                    image,
                    self.layout.rebuilt(),
                    self.width,
                    self.height,
                    self.transform.output@,
                )
                &&& result matches Err(error) ==> error == Error::ColorConversionFailed
            },
    {
        match self.transform.complete(code) {
            Ok(output) => rebuild(self.layout, self.width, self.height, output),
            Err(error) => Err(error),
        }
    }
}

impl<'a> RealEsrgan<'a> {
    /// Whether the sizes that `process_image` computes for `pixels` fit the
    /// machine: those of `can_process`, and for an image that is not turned
    /// down, each side of the enlarged image in `u32`.
    pub open spec fn can_process_image(&self, pixels: Pixels) -> bool {
        let scale = self.options().scale_factor as int;
        &&& self.can_process(pixels.rgb@.len() as int, pixels.width as int, pixels.height as int)
        &&& self.rejection(pixels.rgb@.len() as int, pixels.width as int, pixels.height as int)
            is None ==> pixels.width * scale <= u32::MAX && pixels.height * scale <= u32::MAX
    }

    /// Whether `can_process_image` holds of `pixels`.
    pub fn image_sizes_fit(&self, pixels: &Pixels) -> (fit: bool)
        ensures
            fit == self.can_process_image(*pixels),
    {
        let width = pixels.width as usize;
        let height = pixels.height as usize;
        if !self.sizes_fit(pixels.rgb.len(), width, height) {
            return false;
        }
        if self.address().is_err() {
            return true;
        }
        let block = width * height;
        if block == 0 || pixels.rgb.len() % block != 0 {
            return true;
        }
        let scale = self.scale_factor() as usize;
        width * scale <= u32::MAX as usize && height * scale <= u32::MAX as usize
    }

    /// Makes ready the enlargement of the image that `pixels` were read
    /// from, as `process` does for its red, green and blue bytes. The image
    /// is to be rebuilt in its layout, each side `scale_factor` times as
    /// long.
    pub fn process_image(&self, pixels: &Pixels) -> (result: Result<ImageTransform, Error>)
        requires
            self.can_process_image(*pixels),
        ensures
            match result {
                Ok(enlargement) => {
                    &&& self.rejection(
                        pixels.rgb@.len() as int,
                        pixels.width as int,
                        pixels.height as int,
                    ) is None
                    &&& self.makes_ready(
                        pixels.rgb@.len() as int,
                        pixels.width as int,
                        pixels.height as int,
                        enlargement.transform,
                    )
                    &&& enlargement.layout == pixels.layout
                    &&& enlargement.width == pixels.width * self.options().scale_factor
                    &&& enlargement.height == pixels.height * self.options().scale_factor
                },
                Err(error) => self.rejection(
                    pixels.rgb@.len() as int,
                    pixels.width as int,
                    pixels.height as int,
                ) == Some(error),
            },
    {
        let transform = self.process(
            pixels.rgb.as_slice(),
            pixels.width as usize,
            pixels.height as usize,
        )?;
        let scale = self.scale_factor() as u32;
        Ok(
            ImageTransform {
                layout: pixels.layout,
                width: pixels.width * scale,
                height: pixels.height * scale,
                transform,
            },
        )
    }
}

} // verus!
