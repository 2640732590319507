//! Turning an uploaded image into the JPEG asset that a photo post shows:
//! decode the upload, then encode its pixels as a JPEG.
use vstd::prelude::*;
use image::ImageEncoder;

verus! {

/// How the pixels of a decoded image are laid out: 8-bit luminance, with or
/// without alpha, 8-bit RGB, with or without alpha, or any other layout
/// (16-bit and floating-point ones).
#[derive(PartialEq, Eq, Structural, Clone, Copy, Debug)]
pub enum PixelLayout {
    L8,
    La8,
    Rgb8,
    Rgba8,
    Other,
}

/// A decoded image: its pixel bytes, row by row, its size and its layout.
pub struct DecodedImage {
    pub pixels: Vec<u8>,
    pub width: u32,
    pub height: u32,
    pub layout: PixelLayout,
}

/// What `image` decodes from the bytes of a file (its format guessed from
/// the bytes): the pixel bytes, width, height and layout, or nothing when the
/// format is unknown or the bytes do not decode.
pub uninterp spec fn decoded_image(data: Seq<u8>) -> Option<(Seq<u8>, u32, u32, PixelLayout)>;

/// The JPEG file that `image`'s JPEG encoder writes for these pixels at this
/// quality, or nothing when it refuses them.
pub uninterp spec fn jpeg_bytes(pixels: Seq<u8>, width: u32, height: u32, layout: PixelLayout, quality: u8) -> Option<
    Seq<u8>,
>;

/// Decodes the bytes of an image file (`image::io::Reader::with_guessed_format`,
/// then `decode`), keeping the decoded image's bytes, size and colour type.
/// Trusted: the result is what `image` decodes from these bytes.
#[verifier::external_body]
pub fn decode_image(data: &[u8]) -> (res: Option<DecodedImage>)
    ensures
        match res {
            Some(d) => decoded_image(data@) == Some((d.pixels@, d.width, d.height, d.layout)),
            None => decoded_image(data@) is None,
        },
{
    let reader = image::io::Reader::new(std::io::Cursor::new(data)).with_guessed_format().ok()?;
    let img = reader.decode().ok()?;
    let layout = match img.color() {
        image::ColorType::L8 => PixelLayout::L8,
        image::ColorType::La8 => PixelLayout::La8,
        image::ColorType::Rgb8 => PixelLayout::Rgb8,
        image::ColorType::Rgba8 => PixelLayout::Rgba8,
        _ => PixelLayout::Other,
    };
    Some(DecodedImage { pixels: img.as_bytes().to_vec(), width: img.width(), height: img.height(), layout })
}

/// The bytes per pixel of an 8-bit layout (`ColorType::bytes_per_pixel`).
pub open spec fn bytes_per_pixel(layout: PixelLayout) -> nat {
    match layout {
        PixelLayout::L8 => 1,
        PixelLayout::La8 => 2,
        PixelLayout::Rgb8 => 3,
        PixelLayout::Rgba8 => 4,
        PixelLayout::Other => 0,
    }
}

/// The pixel bytes fill exactly `width * height` pixels of an 8-bit layout.
pub open spec fn encodable(pixels: Seq<u8>, width: u32, height: u32, layout: PixelLayout) -> bool {
    layout != PixelLayout::Other && pixels.len() == width * height * bytes_per_pixel(layout)
}

/// Encodes the pixels as a JPEG at `quality` (`JpegEncoder::new_with_quality`,
/// then `write_image`, into memory). The encoder panics when the pixel bytes
/// do not fill the image, hence the precondition.
/// Trusted: the result is what the encoder writes, nothing when it refuses.
#[verifier::external_body]
pub fn encode_jpeg(img: &DecodedImage, quality: u8) -> (res: Option<Vec<u8>>)
    requires
        encodable(img.pixels@, img.width, img.height, img.layout),
    ensures
        match res {
            Some(b) => jpeg_bytes(img.pixels@, img.width, img.height, img.layout, quality) == Some(b@),
            None => jpeg_bytes(img.pixels@, img.width, img.height, img.layout, quality) is None,
        },
{
    let color = match img.layout {
        PixelLayout::L8 => image::ColorType::L8,
        PixelLayout::La8 => image::ColorType::La8,
        PixelLayout::Rgb8 => image::ColorType::Rgb8,
        PixelLayout::Rgba8 => image::ColorType::Rgba8,
        PixelLayout::Other => return None,
    };
    let mut out: Vec<u8> = Vec::new();
    let encoder = image::codecs::jpeg::JpegEncoder::new_with_quality(&mut out, quality);
    encoder.write_image(&img.pixels, img.width, img.height, color).ok()?;
    Some(out)
}

/// The JPEG asset made from an uploaded file: the decoded image encoded at
/// `quality`; nothing when the file does not decode, when its layout is not
/// an 8-bit one (the JPEG encoder refuses those), when its pixel bytes do not
/// fill the image, or when the encoder refuses it.
pub open spec fn jpeg_asset_of(data: Seq<u8>, quality: u8) -> Option<Seq<u8>> {
    match decoded_image(data) {
        None => None,
        Some((pixels, width, height, layout)) => if encodable(pixels, width, height, layout) {
            jpeg_bytes(pixels, width, height, layout, quality)
        } else {
            None
        },
    }
}

/// The pixel bytes fill exactly `width * height` pixels of one of the 8-bit
/// layouts that the JPEG encoder takes: one byte per pixel for luminance, two
/// with alpha, three for RGB, four for RGB with alpha.
pub open spec fn fills_8bit(pixels: Seq<u8>, width: u32, height: u32, layout: PixelLayout) -> bool {
    ||| layout == PixelLayout::L8 && pixels.len() == width * height
    ||| layout == PixelLayout::La8 && pixels.len() == width * height * 2
    ||| layout == PixelLayout::Rgb8 && pixels.len() == width * height * 3
    ||| layout == PixelLayout::Rgba8 && pixels.len() == width * height * 4
}

/// The asset made from an upload: for every upload that decodes to an 8-bit
/// layout (luminance or RGB, with or without alpha) whose pixel bytes fill
/// the image, exactly what the JPEG encoder writes for those pixels at that
/// quality; nothing for an upload that does not decode, or that decodes to
/// another layout.
pub proof fn lemma_jpeg_asset(data: Seq<u8>, quality: u8)
    ensures
        match decoded_image(data) {
            Some((p, w, h, l)) => (fills_8bit(p, w, h, l) ==> jpeg_asset_of(data, quality) == jpeg_bytes(p, w, h, l, quality))
                && (l == PixelLayout::Other ==> jpeg_asset_of(data, quality) is None),
            None => jpeg_asset_of(data, quality) is None,
        },
{
}

fn layout_bytes(layout: PixelLayout) -> (n: u128)
    ensures
        n == bytes_per_pixel(layout),
{
    match layout {
        PixelLayout::L8 => 1,
        PixelLayout::La8 => 2,
        PixelLayout::Rgb8 => 3,
        PixelLayout::Rgba8 => 4,
        PixelLayout::Other => 0,
    }
}

/// Makes the JPEG asset of an uploaded file.
pub fn jpeg_asset(data: &[u8], quality: u8) -> (res: Option<Vec<u8>>)
    ensures
        match res {
            Some(b) => jpeg_asset_of(data@, quality) == Some(b@),
            None => jpeg_asset_of(data@, quality) is None,
        },
        match decoded_image(data@) {
            Some((p, w, h, l)) => fills_8bit(p, w, h, l) ==> match res {
                Some(b) => jpeg_bytes(p, w, h, l, quality) == Some(b@),
                None => jpeg_bytes(p, w, h, l, quality) is None,
            },
            None => res is None,
        },
{
    proof {
        lemma_jpeg_asset(data@, quality);
    }
    let img = match decode_image(data) {
        Some(img) => img,
        None => {
            return None;
        },
    };
    if img.layout == PixelLayout::Other {
        return None;
    }
    let w = img.width as u128;
    let h = img.height as u128;
    let b = layout_bytes(img.layout);
    assert(w * h <= 0xffff_ffffu128 * 0xffff_ffffu128) by (nonlinear_arith)
        requires
            w <= 0xffff_ffffu128,
            h <= 0xffff_ffffu128,
    ;
    assert(w * h * b <= 0xffff_ffffu128 * 0xffff_ffffu128 * 4) by (nonlinear_arith)
        requires
            w * h <= 0xffff_ffffu128 * 0xffff_ffffu128,
            b <= 4,
    ;
    let need = w * h * b;
    if need != img.pixels.len() as u128 {
        return None;
    }
    encode_jpeg(&img, quality)
}

} // verus!
