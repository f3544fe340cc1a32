//! The window and notification-area icons, decoded from the bundled `.ico`.
use image::imageops::FilterType;
use image::{DynamicImage, ImageBuffer, ImageError};
use vstd::prelude::*;

verus! {

/// Side of the square window icon (title bar, task switcher), in pixels.
pub const WINDOW_ICON_PX: u32 = 64;

/// Side of the square notification-area icon, in pixels.
pub const TRAY_ICON_PX: u32 = 32;

#[verifier::external_type_specification]
#[verifier::external_body]
pub struct ExDynamicImage(DynamicImage);

#[verifier::external_type_specification]
#[verifier::external_body]
pub struct ExImageError(ImageError);

/// `image::load_from_memory`: decodes an image whose format is guessed from
/// its contents. Nothing is claimed of the outcome: besides the bytes it
/// depends on the format-detection and decoding hooks that any code in the
/// process may register with `image::hooks`, and the decoded pixels are an
/// opaque value here.
pub assume_specification[ image::load_from_memory ](buffer: &[u8]) -> (r: Result<
    DynamicImage,
    ImageError,
>);

/// The RGBA samples of a decoded image, row by row, four per pixel: eight
/// bits per sample for images decoded with at most eight bits per channel,
/// sixteen otherwise.
pub enum RgbaSamples {
    Rgba8(Vec<u8>),
    Rgba16(Vec<u16>),
}

/// The samples of a decoded image as sequences.
pub enum RgbaSamplesView {
    Rgba8(Seq<u8>),
    Rgba16(Seq<u16>),
}

impl View for RgbaSamples {
    type V = RgbaSamplesView;

    open spec fn view(&self) -> RgbaSamplesView {
        match self {
            RgbaSamples::Rgba8(v) => RgbaSamplesView::Rgba8(v@),
            RgbaSamples::Rgba16(v) => RgbaSamplesView::Rgba16(v@),
        }
    }
}

impl RgbaSamplesView {
    /// The number of samples.
    pub open spec fn len(self) -> nat {
        match self {
            RgbaSamplesView::Rgba8(s) => s.len(),
            RgbaSamplesView::Rgba16(s) => s.len(),
        }
    }
}

/// A decoded image as plain values: its sides and its RGBA samples.
pub struct DecodedImage {
    pub width: u32,
    pub height: u32,
    pub samples: RgbaSamples,
}

/// Whether the samples cover the image exactly: four per pixel.
pub open spec fn samples_complete(image: DecodedImage) -> bool {
    image.samples@.len() == 4 * image.width * image.height
}

/// `DynamicImage::width`, `height`, and `to_rgba8` (for images with eight
/// bits per channel) or `to_rgba16` (otherwise), then `into_raw`. Nothing is
/// claimed of the values: they come from the opaque image. Converting an
/// image with at most eight (sixteen) bits per integer channel to RGBA with
/// eight (sixteen) bits is exact and channel by channel, so scaling the
/// converted samples gives the pixels that scaling the image itself gives;
/// floating-point images are rounded to sixteen bits here.
#[verifier::external_body]
fn decoded_image(image: DynamicImage) -> DecodedImage {
    let (width, height) = (image.width(), image.height());
    let samples = match image {
        DynamicImage::ImageLuma8(_) | DynamicImage::ImageLumaA8(_) | DynamicImage::ImageRgb8(_)
        | DynamicImage::ImageRgba8(_) => RgbaSamples::Rgba8(image.to_rgba8().into_raw()),
        _ => RgbaSamples::Rgba16(image.to_rgba16().into_raw()),
    };
    DecodedImage { width, height, samples }
}

/// The resampling filters of the `image` crate whose kernels are plain
/// arithmetic (the others evaluate `powi`, `exp` or `sin`, whose last bits
/// depend on the platform's math library).
#[derive(Clone, Copy, Debug)]
pub enum ResizeFilter {
    Nearest,
    Triangle,
}

/// Whether `DynamicImage::resize_to_fill` from a `width` x `height` image
/// yields exactly `nwidth` x `nheight` pixels: the source has no empty side,
/// and scaling it to cover the target keeps both sides within `u32` (beyond
/// that the crate clamps a side to `u32::MAX` and crops short).
pub open spec fn fill_is_exact(width: u32, height: u32, nwidth: u32, nheight: u32) -> bool {
    &&& width > 0
    &&& height > 0
    &&& nwidth * height <= u32::MAX * width
    &&& nheight * width <= u32::MAX * height
}

/// The RGBA bytes that `DynamicImage::resize_to_fill(nwidth, nheight,
/// filter)` followed by `to_rgba8` gives for a `width` x `height` RGBA image
/// with the given samples. The crate computes them with plain `f32`
/// arithmetic, so they depend on these values alone.
pub uninterp spec fn resized_fill_rgba(
    samples: RgbaSamplesView,
    width: u32,
    height: u32,
    nwidth: u32,
    nheight: u32,
    filter: ResizeFilter,
) -> Seq<u8>;

/// Builds the RGBA image from `image`'s samples (`ImageBuffer::from_raw`,
/// which accepts them since they are complete), then
/// `DynamicImage::resize_to_fill(nwidth, nheight, filter)`, `to_rgba8` and
/// `into_raw`. Claimed: the result is `resized_fill_rgba` of the arguments,
/// and, from the crate's source (`resize_to_fill` scales to cover the target
/// and crops to `nwidth` x `nheight`; `to_rgba8` gives four bytes per pixel),
/// it has `4 * nwidth * nheight` bytes. With a non-empty source whose scaled
/// sides fit in `u32`, the crate's arithmetic on sides cannot overflow.
#[verifier::external_body]
fn resize_to_fill_rgba(image: &DecodedImage, nwidth: u32, nheight: u32, filter: ResizeFilter) -> (pixels: Vec<u8>)
    requires
        fill_is_exact(image.width, image.height, nwidth, nheight),
        samples_complete(*image),
    ensures
        pixels@ == resized_fill_rgba(image.samples@, image.width, image.height, nwidth, nheight, filter),
        pixels@.len() == 4 * nwidth * nheight,
{
    let (w, h) = (image.width, image.height);
    let source = match &image.samples {
        RgbaSamples::Rgba8(raw) => DynamicImage::ImageRgba8(ImageBuffer::from_raw(w, h, raw.clone()).unwrap()),
        RgbaSamples::Rgba16(raw) => DynamicImage::ImageRgba16(ImageBuffer::from_raw(w, h, raw.clone()).unwrap()),
    };
    let filter = match filter {
        ResizeFilter::Nearest => FilterType::Nearest,
        ResizeFilter::Triangle => FilterType::Triangle,
    };
    source.resize_to_fill(nwidth, nheight, filter).to_rgba8().into_raw()
}

/// Why an icon could not be produced.
#[derive(Debug)]
pub enum IconError {
    /// The `.ico` bytes do not decode as an image; the decoder's error.
    Decode(ImageError),
    /// The decoded image has an empty side, is so narrow or so flat that
    /// covering the square would exceed the largest image side, or its
    /// samples do not cover it.
    Shape,
}

impl IconError {
    /// What was being done when the error came up.
    pub fn context(&self) -> (context: &'static str)
        ensures
            self is Decode ==> context@ == "decode autossh-tunnel.ico"@,
            self is Shape ==> context@ == "scale autossh-tunnel.ico"@,
    {
        match self {
            IconError::Decode(_) => "decode autossh-tunnel.ico",
            IconError::Shape => "scale autossh-tunnel.ico",
        }
    }
}

/// RGBA pixels of a square icon together with its dimensions.
pub struct IconData {
    pub rgba: Vec<u8>,
    pub width: u32,
    pub height: u32,
}

/// What a decoding outcome yields as a `size` x `size` icon: a decoding
/// error becomes `IconError::Decode` with that error; a decoded image that
/// can be scaled exactly gives its pixels scaled with the triangle filter to
/// fill the square, and the two sides; any other image gives
/// `IconError::Shape`.
pub fn pixels_from_decoded(decoded: Result<DecodedImage, ImageError>, size: u32) -> (r: Result<
    (Vec<u8>, u32, u32),
    IconError,
>)
    ensures
        (match decoded {
            Err(e) => r matches Err(IconError::Decode(e2)) && e2 == e,
            Ok(d) => if fill_is_exact(d.width, d.height, size, size) && samples_complete(d) {
                r matches Ok(t) && t.1 == size && t.2 == size && t.0@ == resized_fill_rgba(
                    d.samples@,
                    d.width,
                    d.height,
                    size,
                    size,
                    ResizeFilter::Triangle,
                ) && t.0@.len() == 4 * size * size
            } else {
                r matches Err(IconError::Shape)
            },
        }),
{
    match decoded {
        Err(error) => Err(IconError::Decode(error)),
        Ok(image) => {
            let side = size as u64;
            let w = image.width as u64;
            let h = image.height as u64;
            let limit = u32::MAX as u64;
            proof {
                assert(side * h <= limit * limit && limit * w <= limit * limit && side * w
                    <= limit * limit && limit * h <= limit * limit && w * h <= limit * limit)
                    by (nonlinear_arith)
                    requires
                        side <= limit,
                        w <= limit,
                        h <= limit,
                ;
            }
            let exact = w > 0 && h > 0 && side * h <= limit * w && side * w <= limit * h;
            let count = match &image.samples {
                RgbaSamples::Rgba8(raw) => raw.len(),
                RgbaSamples::Rgba16(raw) => raw.len(),
            };
            let count = count as u64;
            let complete = count % 4 == 0 && count / 4 == w * h;
            assert(count == image.samples@.len());
            assert(4 * w * h == 4 * (w * h)) by (nonlinear_arith);
            assert(complete <==> count == 4 * (w * h));
            if exact && complete {
                let pixels = resize_to_fill_rgba(&image, size, size, ResizeFilter::Triangle);
                Ok((pixels, size, size))
            } else {
                Err(IconError::Shape)
            }
        },
    }
}

/// Whether `pixels` are some decoded image scaled with the triangle filter
/// to fill a `size` x `size` square: the RGBA bytes row by row from the
/// top-left, as `resize_to_fill` and `to_rgba8` give them.
pub open spec fn is_scaled_icon(pixels: Seq<u8>, size: u32) -> bool {
    exists|samples: RgbaSamplesView, width: u32, height: u32|
        #![trigger resized_fill_rgba(samples, width, height, size, size, ResizeFilter::Triangle)]
        fill_is_exact(width, height, size, size) && samples.len() == 4 * width * height && pixels
            == resized_fill_rgba(samples, width, height, size, size, ResizeFilter::Triangle)
}

/// Decodes `ico` and scales it with the triangle filter to fill a `size` x
/// `size` square: the RGBA bytes, four per pixel, and the two sides. Fails
/// with `IconError::Decode` when the bytes do not decode and with
/// `IconError::Shape` when the decoded image cannot be scaled exactly; what
/// the outcome is for given bytes is decided by the `image` crate.
pub fn rgba_at_size(ico: &[u8], size: u32) -> (r: Result<(Vec<u8>, u32, u32), IconError>)
    ensures
        r matches Ok(t) ==> t.1 == size && t.2 == size && t.0@.len() == 4 * size * size
            && is_scaled_icon(t.0@, size),
{
    let decoded = match image::load_from_memory(ico) {
        Ok(image) => Ok(decoded_image(image)),
        Err(error) => Err(error),
    };
    let ghost source = decoded;
    let r = pixels_from_decoded(decoded, size);
    proof {
        if source is Ok && r is Ok {
            let d = source->Ok_0;
            let _ = resized_fill_rgba(d.samples@, d.width, d.height, size, size, ResizeFilter::Triangle);
        }
    }
    r
}

/// The icon that a scaling result stands for, if it succeeded.
pub fn icon_data(pixels: Result<(Vec<u8>, u32, u32), IconError>) -> (icon: Option<IconData>)
    ensures
        pixels is Err ==> icon is None,
        pixels matches Ok(t) ==> icon matches Some(d) && d.rgba == t.0 && d.width == t.1
            && d.height == t.2,
{
    match pixels {
        Ok((rgba, width, height)) => Some(IconData { rgba, width, height }),
        Err(_) => None,
    }
}

/// The window icon: the `.ico` scaled to 64 x 64, or `None` when it cannot
/// be decoded or scaled.
pub fn window_icon(ico: &[u8]) -> (icon: Option<IconData>)
    ensures
        icon matches Some(d) ==> d.width == WINDOW_ICON_PX && d.height == WINDOW_ICON_PX
            && d.rgba@.len() == 4 * WINDOW_ICON_PX * WINDOW_ICON_PX && is_scaled_icon(
            d.rgba@,
            WINDOW_ICON_PX,
        ),
{
    icon_data(rgba_at_size(ico, WINDOW_ICON_PX))
}

/// The notification-area icon: the `.ico` scaled to 32 x 32, or `None`
/// when it cannot be decoded or scaled.
pub fn tray_icon(ico: &[u8]) -> (icon: Option<IconData>)
    ensures
        icon matches Some(d) ==> d.width == TRAY_ICON_PX && d.height == TRAY_ICON_PX
            && d.rgba@.len() == 4 * TRAY_ICON_PX * TRAY_ICON_PX && is_scaled_icon(
            d.rgba@,
            TRAY_ICON_PX,
        ),
{
    icon_data(rgba_at_size(ico, TRAY_ICON_PX))
}

} // verus!
