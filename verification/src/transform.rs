use vstd::prelude::*;

use crate::error::ImagioError;
use crate::variant::{spec_target_box, Variant};
use fast_image_resize::IntoImageView;
use image::ImageEncoder;

verus! {

#[verifier::external_type_specification]
#[verifier::external_body]
pub struct ExDynamicImage(image::DynamicImage);

/// The pixel layout of a decoded source image, as far as the encoding
/// policy reads it: the eight integer layouts the service re-encodes.
/// A source outside these (a floating-point layout) is unsupported.
#[derive(Clone, Copy, Debug, PartialEq, Eq, Structural)]
pub enum ColorKind {
    L8,
    La8,
    Rgb8,
    Rgba8,
    L16,
    La16,
    Rgb16,
    Rgba16,
}

/// Whether a source with this layout is re-encoded losslessly (PNG):
/// exactly when it carries an alpha channel or is 16 bits per channel.
pub open spec fn spec_lossless(c: ColorKind) -> bool {
    match c {
        ColorKind::L8 => false,
        ColorKind::Rgb8 => false,
        ColorKind::La8 => true,
        ColorKind::Rgba8 => true,
        ColorKind::L16 => true,
        ColorKind::La16 => true,
        ColorKind::Rgb16 => true,
        ColorKind::Rgba16 => true,
    }
}

pub open spec fn spec_bytes_per_pixel(c: ColorKind) -> int {
    match c {
        ColorKind::L8 => 1,
        ColorKind::La8 => 2,
        ColorKind::Rgb8 => 3,
        ColorKind::Rgba8 => 4,
        ColorKind::L16 => 2,
        ColorKind::La16 => 4,
        ColorKind::Rgb16 => 6,
        ColorKind::Rgba16 => 8,
    }
}

/// An integer code for each layout, used where the trusted contracts
/// speak of plain values only.
pub open spec fn spec_color_code(c: ColorKind) -> u32 {
    match c {
        ColorKind::L8 => 1,
        ColorKind::La8 => 2,
        ColorKind::Rgb8 => 3,
        ColorKind::Rgba8 => 4,
        ColorKind::L16 => 5,
        ColorKind::La16 => 6,
        ColorKind::Rgb16 => 7,
        ColorKind::Rgba16 => 8,
    }
}

pub open spec fn spec_color_of_code(code: u32) -> ColorKind {
    if code == 2 {
        ColorKind::La8
    } else if code == 3 {
        ColorKind::Rgb8
    } else if code == 4 {
        ColorKind::Rgba8
    } else if code == 5 {
        ColorKind::L16
    } else if code == 6 {
        ColorKind::La16
    } else if code == 7 {
        ColorKind::Rgb16
    } else if code == 8 {
        ColorKind::Rgba16
    } else {
        ColorKind::L8
    }
}

pub proof fn lemma_color_code_roundtrip(c: ColorKind)
    ensures
        spec_color_of_code(spec_color_code(c)) == c,
{
}

/// The length of the raw pixel buffer of a `w` x `h` image with layout
/// `c`.
pub open spec fn spec_buffer_len(c: ColorKind, w: int, h: int) -> int {
    w * h * spec_bytes_per_pixel(c)
}

/// What decoding a byte stream yields: `None` for bytes no enabled
/// decoder accepts, otherwise the image's width and height.
pub uninterp spec fn decoded_of(b: Seq<u8>) -> Option<(u32, u32)>;

/// The layout of the decoded image, as a color code (`spec_color_code`):
/// `None` where the layout is not one of the eight integer layouts.
/// Meaningful only where `decoded_of` succeeds.
pub uninterp spec fn decoded_color_of(b: Seq<u8>) -> Option<u32>;

/// What PNG-encoding a `w` x `h` pixel buffer with the layout of the
/// given color code yields: `None` where the encoder rejects the
/// parameters, otherwise the encoded bytes. For the 16-bit layouts the
/// encoder reorders samples from native byte order, so this function's
/// determinism claim holds per target endianness (the same on every
/// little-endian host).
pub uninterp spec fn png_encoding_of(px: Seq<u8>, w: u32, h: u32, color: u32) -> Option<Seq<u8>>;

/// What JPEG-encoding a `w` x `h` pixel buffer with the layout of the
/// given color code yields; `None` where the encoder rejects the
/// parameters.
pub uninterp spec fn jpeg_encoding_of(px: Seq<u8>, w: u32, h: u32, color: u32) -> Option<Seq<u8>>;

/// A decoded source image: the source bytes it was decoded from, its
/// dimensions, and the decoder's image handle. Only `decode_image`
/// constructs values of this type, so the handle is always the decode
/// of the carried source bytes.
pub struct DecodedImage {
    source: Vec<u8>,
    width: u32,
    height: u32,
    handle: image::DynamicImage,
}

impl DecodedImage {
    pub closed spec fn spec_source(&self) -> Seq<u8> {
        self.source@
    }

    pub closed spec fn spec_width(&self) -> u32 {
        self.width
    }

    pub closed spec fn spec_height(&self) -> u32 {
        self.height
    }
}

/// Relies on image's `ImageReader`: decoding in-memory bytes under a
/// guessed format is a deterministic function of the bytes, and the
/// decoded image's dimensions are those of the byte stream's header.
#[verifier::external_body]
fn decode_image(bytes: &Vec<u8>) -> (r: Option<DecodedImage>)
    ensures
        match decoded_of(bytes@) {
            Some(dims) => r matches Some(d) && d.spec_width() == dims.0 && d.spec_height()
                == dims.1 && d.spec_source() == bytes@,
            None => r is None,
        },
{
    let reader = image::ImageReader::new(std::io::Cursor::new(bytes.clone()))
        .with_guessed_format()
        .ok()?;
    let handle = reader.decode().ok()?;
    Some(DecodedImage { source: bytes.clone(), width: handle.width(), height: handle.height(), handle })
}

/// Relies on `DynamicImage::color`: the layout of the decoded image is
/// a deterministic function of the decoded bytes; the two
/// floating-point layouts and any layout outside the eight integer
/// ones are handed back as unsupported.
#[verifier::external_body]
fn color_kind(d: &DecodedImage) -> (r: Option<ColorKind>)
    ensures
        match decoded_color_of(d.spec_source()) {
            Some(code) => r matches Some(c) && spec_color_code(c) == code,
            None => r is None,
        },
{
    match d.handle.color() {
        image::ColorType::L8 => Some(ColorKind::L8),
        image::ColorType::La8 => Some(ColorKind::La8),
        image::ColorType::Rgb8 => Some(ColorKind::Rgb8),
        image::ColorType::Rgba8 => Some(ColorKind::Rgba8),
        image::ColorType::L16 => Some(ColorKind::L16),
        image::ColorType::La16 => Some(ColorKind::La16),
        image::ColorType::Rgb16 => Some(ColorKind::Rgb16),
        image::ColorType::Rgba16 => Some(ColorKind::Rgba16),
        _ => None,
    }
}

/// Relies on fast_image_resize's `Resizer::resize` with its default
/// options: the whole source (no cropping) is resized into a
/// `dw` x `dh` destination image of the source's own pixel type, whose
/// buffer holds exactly `dw * dh` pixels of that layout. With the
/// pixel types matching by construction and no crop box, the resizer
/// has no failure path, so the resize always succeeds.
#[verifier::external_body]
fn resize_image(d: &DecodedImage, dw: u32, dh: u32, c: ColorKind) -> (r: Option<Vec<u8>>)
    requires
        decoded_color_of(d.spec_source()) == Some(spec_color_code(c)),
    ensures
        r is Some,
        r matches Some(px) ==> px@.len() == spec_buffer_len(c, dw as int, dh as int),
{
    let pt = d.handle.pixel_type()?;
    let mut dst = fast_image_resize::images::Image::new(dw, dh, pt);
    let mut resizer = fast_image_resize::Resizer::new();
    match resizer.resize(&d.handle, &mut dst, Option::<&fast_image_resize::ResizeOptions>::None) {
        Ok(()) => Some(dst.into_vec()),
        Err(_) => None,
    }
}

/// Relies on image's `PngEncoder::write_image` into an in-memory
/// buffer: the encoding is a deterministic function of the pixels,
/// dimensions and layout. The buffer length must match the dimensions,
/// which the encoder asserts. PNG carries all eight layouts and the
/// png crate validates only non-zero dimensions and the layout/depth
/// combination, so with both dimensions at least 1 the encoding
/// succeeds.
#[verifier::external_body]
fn encode_png(px: &Vec<u8>, w: u32, h: u32, c: ColorKind) -> (r: Option<Vec<u8>>)
    requires
        px@.len() == spec_buffer_len(c, w as int, h as int),
    ensures
        ({
            let e = png_encoding_of(px@, w, h, spec_color_code(c));
            match r {
                Some(out) => e == Some(out@),
                None => e is None,
            }
        }),
        1 <= w && 1 <= h ==> r is Some,
{
    let ec = match c {
        ColorKind::L8 => image::ExtendedColorType::L8,
        ColorKind::La8 => image::ExtendedColorType::La8,
        ColorKind::Rgb8 => image::ExtendedColorType::Rgb8,
        ColorKind::Rgba8 => image::ExtendedColorType::Rgba8,
        ColorKind::L16 => image::ExtendedColorType::L16,
        ColorKind::La16 => image::ExtendedColorType::La16,
        ColorKind::Rgb16 => image::ExtendedColorType::Rgb16,
        ColorKind::Rgba16 => image::ExtendedColorType::Rgba16,
    };
    let mut out = Vec::new();
    let enc = image::codecs::png::PngEncoder::new(&mut out);
    enc.write_image(px, w, h, ec).ok().map(|_| out)
}

/// Relies on image's `JpegEncoder::write_image` into an in-memory
/// buffer: the encoding is a deterministic function of the pixels,
/// dimensions and layout; it succeeds for the two layouts JPEG carries
/// (8-bit luma and 8-bit RGB) whenever both dimensions lie in 1..=65535.
/// The buffer length must match the dimensions, which the encoder
/// asserts.
#[verifier::external_body]
fn encode_jpeg(px: &Vec<u8>, w: u32, h: u32, c: ColorKind) -> (r: Option<Vec<u8>>)
    requires
        px@.len() == spec_buffer_len(c, w as int, h as int),
    ensures
        ({
            let e = jpeg_encoding_of(px@, w, h, spec_color_code(c));
            match r {
                Some(out) => e == Some(out@),
                None => e is None,
            }
        }),
        (c == ColorKind::L8 || c == ColorKind::Rgb8) && 1 <= w <= 65535 && 1 <= h <= 65535
            ==> r is Some,
{
    let ec = match c {
        ColorKind::L8 => image::ExtendedColorType::L8,
        ColorKind::La8 => image::ExtendedColorType::La8,
        ColorKind::Rgb8 => image::ExtendedColorType::Rgb8,
        ColorKind::Rgba8 => image::ExtendedColorType::Rgba8,
        ColorKind::L16 => image::ExtendedColorType::L16,
        ColorKind::La16 => image::ExtendedColorType::La16,
        ColorKind::Rgb16 => image::ExtendedColorType::Rgb16,
        ColorKind::Rgba16 => image::ExtendedColorType::Rgba16,
    };
    let mut out = Vec::new();
    let enc = image::codecs::jpeg::JpegEncoder::new(&mut out);
    enc.write_image(px, w, h, ec).ok().map(|_| out)
}

/// The output encoding of a derivative.
#[derive(Clone, Copy, Debug, PartialEq, Eq, Structural)]
pub enum Encoding {
    Png,
    Jpeg,
}

/// The transform plan for a source of dimensions `w` x `h` and layout
/// `c` under a non-`Original` variant: the target dimensions and the
/// output encoding, or the error for a degenerate geometry. A zero
/// dimension is rejected before any geometry is computed; a scaled
/// dimension that leaves `u32` range (zero included) is rejected as
/// well.
pub open spec fn spec_plan(w: u32, h: u32, c: ColorKind, v: Variant) -> Result<
    (u32, u32, Encoding),
    ImagioError,
>
    recommends
        !(v is Original),
{
    if w < 1 || h < 1 {
        Err(ImagioError::DecodeError)
    } else {
        let (dw, dh) = spec_target_box(v, w as int, h as int);
        if dw < 1 || dw > u32::MAX || dh < 1 || dh > u32::MAX {
            Err(ImagioError::DecodeError)
        } else {
            Ok(
                (
                    dw as u32,
                    dh as u32,
                    if spec_lossless(c) {
                        Encoding::Png
                    } else {
                        Encoding::Jpeg
                    },
                ),
            )
        }
    }
}

/// Computes the transform plan: the target box of the variant under
/// the source dimensions, and the output encoding selected from the
/// source layout (lossless exactly for alpha-carrying or 16-bit
/// layouts).
pub fn plan_transform(w: u32, h: u32, c: ColorKind, variant: &Variant) -> (r: Result<
    (u32, u32, Encoding),
    ImagioError,
>)
    requires
        !(*variant is Original),
    ensures
        r == spec_plan(w, h, c, *variant),
{
    if w < 1 || h < 1 {
        return Err(ImagioError::DecodeError);
    }
    match variant.target_box(w, h) {
        Some((dw, dh)) => {
            let enc = if is_lossless(c) {
                Encoding::Png
            } else {
                Encoding::Jpeg
            };
            Ok((dw, dh, enc))
        },
        None => Err(ImagioError::DecodeError),
    }
}

/// Exec mirror of `spec_lossless`.
fn is_lossless(c: ColorKind) -> (r: bool)
    ensures
        r == spec_lossless(c),
{
    match c {
        ColorKind::L8 => false,
        ColorKind::Rgb8 => false,
        _ => true,
    }
}

/// The plan a source byte stream gets under a variant: decode failure
/// and unsupported layouts map to `DecodeError`, then the transform
/// plan of the decoded dimensions and layout.
pub open spec fn spec_source_plan(src: Seq<u8>, v: Variant) -> Result<
    (u32, u32, Encoding, ColorKind),
    ImagioError,
> {
    match decoded_of(src) {
        None => Err(ImagioError::DecodeError),
        Some(dims) => match decoded_color_of(src) {
            None => Err(ImagioError::DecodeError),
            Some(code) => {
                let c = spec_color_of_code(code);
                match spec_plan(dims.0, dims.1, c, v) {
                    Ok(p) => Ok((p.0, p.1, p.2, c)),
                    Err(e) => Err(e),
                }
            },
        },
    }
}

/// `out` is a valid rendering of the source under the variant: the
/// encoding, at exactly the planned dimensions, of some pixel buffer
/// of the planned size. The pixel buffer is existential because the
/// resizer dispatches on CPU features and its output is not promised
/// to be bit-identical on every machine; two renderings of one source
/// may therefore differ by contract (repeat requests are byte-identical
/// through the cache, which reads the first rendering back).
pub open spec fn spec_render_ok(src: Seq<u8>, v: Variant, out: Seq<u8>) -> bool {
    match spec_source_plan(src, v) {
        Ok((dw, dh, enc, c)) => exists|px: Seq<u8>|
            px.len() == spec_buffer_len(c, dw as int, dh as int) && (match enc {
                Encoding::Png => png_encoding_of(px, dw, dh, spec_color_code(c)) == Some(out),
                Encoding::Jpeg => jpeg_encoding_of(px, dw, dh, spec_color_code(c)) == Some(out),
            }),
        Err(_) => false,
    }
}

/// The errors a rendering can fail with: the deterministic error of
/// the source plan, or `DecodeError` where the encoder rejects the
/// planned parameters.
pub open spec fn spec_render_err(src: Seq<u8>, v: Variant, e: ImagioError) -> bool {
    match spec_source_plan(src, v) {
        Ok(_) => e == ImagioError::DecodeError,
        Err(e2) => e == e2,
    }
}

/// When a rendering is owed to succeed: the source plan exists and the
/// selected encoder accepts the planned dimensions — PNG always (it
/// carries all eight layouts), JPEG up to 65535 on each side.
pub open spec fn spec_render_guaranteed(src: Seq<u8>, v: Variant) -> bool {
    match spec_source_plan(src, v) {
        Ok((dw, dh, enc, c)) => match enc {
            Encoding::Png => true,
            Encoding::Jpeg => dw <= 65535 && dh <= 65535,
        },
        Err(_) => false,
    }
}

/// Encoding selection: for every non-`Original` variant, a plan for an
/// alpha-carrying or 16-bit source selects the lossless encoding (PNG),
/// and a plan for any other source selects JPEG.
pub proof fn lemma_encoding_selection(w: u32, h: u32, c: ColorKind, v: Variant)
    requires
        !(v is Original),
    ensures
        spec_plan(w, h, c, v) matches Ok(p) ==> (p.2 == Encoding::Png <==> spec_lossless(c)),
        spec_plan(w, h, c, v) matches Ok(p) ==> (p.2 == Encoding::Jpeg <==> !spec_lossless(c)),
{
}

/// Decodes the source bytes, resizes them into the variant's target
/// dimensions, and re-encodes them under the policy of the source
/// layout. Never called for `Original`, which is served verbatim.
/// Succeeds whenever success is owed (`spec_render_guaranteed`); in
/// particular a rendering planned as PNG, or as JPEG within the
/// encoder's dimension range, never fails.
pub fn render(source: &Vec<u8>, variant: &Variant) -> (r: Result<Vec<u8>, ImagioError>)
    requires
        !(*variant is Original),
    ensures
        match r {
            Ok(b) => spec_source_plan(source@, *variant) is Ok && spec_render_ok(
                source@,
                *variant,
                b@,
            ),
            Err(e) => spec_render_err(source@, *variant, e),
        },
        spec_render_guaranteed(source@, *variant) ==> r is Ok,
{
    let d = match decode_image(source) {
        Some(d) => d,
        None => {
            return Err(ImagioError::DecodeError);
        },
    };
    let c = match color_kind(&d) {
        Some(c) => c,
        None => {
            return Err(ImagioError::DecodeError);
        },
    };
    proof {
        lemma_color_code_roundtrip(c);
    }
    let (dw, dh, enc) = match plan_transform(d.width, d.height, c, variant) {
        Ok(p) => p,
        Err(e) => {
            return Err(e);
        },
    };
    let px = match resize_image(&d, dw, dh, c) {
        Some(px) => px,
        None => {
            return Err(ImagioError::DecodeError);
        },
    };
    let out = match enc {
        Encoding::Png => encode_png(&px, dw, dh, c),
        Encoding::Jpeg => encode_jpeg(&px, dw, dh, c),
    };
    match out {
        Some(b) => {
            proof {
                assert(spec_render_ok(source@, *variant, b@));
            }
            Ok(b)
        },
        None => Err(ImagioError::DecodeError),
    }
}

} // verus!
