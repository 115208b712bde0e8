//! The image normalizer: decodes raw cover bytes, resizes them under a
//! fixed bounding box and re-encodes them as lossless WebP, naming the
//! result after the target identifier. Writing the encoded bytes to disk
//! is the caller's task; the caller receives them together with the
//! target path.

use vstd::prelude::*;
use vstd::string::StringExecFns;
use crate::record::ImportError;
use image::GenericImageView;

verus! {

/// Widest a derived cover may be.
pub const COVER_MAX_WIDTH: u32 = 1000;

/// Tallest a derived cover may be.
pub const COVER_MAX_HEIGHT: u32 = 600;

#[verifier::external_type_specification]
#[verifier::external_body]
pub struct ExDynamicImage(image::DynamicImage);

/// Abstract model of what a decoded image holds (its samples and colour
/// layout); the dimensions are modelled separately.
pub uninterp spec fn image_content(img: image::DynamicImage) -> Seq<Seq<u32>>;

/// Width in pixels of a decoded image.
pub uninterp spec fn image_width(img: image::DynamicImage) -> nat;

/// Height in pixels of a decoded image.
pub uninterp spec fn image_height(img: image::DynamicImage) -> nat;

/// What `image::load_from_memory` decodes from the bytes, if anything;
/// decoding is a function of the bytes alone.
pub uninterp spec fn decode_of(bytes: Seq<u8>) -> Option<Seq<Seq<u32>>>;

/// Width of the image those bytes decode to.
pub uninterp spec fn decode_width(bytes: Seq<u8>) -> nat;

/// Height of the image those bytes decode to.
pub uninterp spec fn decode_height(bytes: Seq<u8>) -> nat;

/// The width `DynamicImage::resize` picks when fitting an image of the
/// given dimensions within the given bounds. The dimension arithmetic
/// is exact IEEE double-precision work, so it is a function of the four
/// numbers alone; the resampled pixels are not (the filter's kernel
/// goes through `sin`, whose precision the platform may vary), so they
/// are carried opaquely and never named.
pub uninterp spec fn fit_width(w: nat, h: nat, max_w: u32, max_h: u32) -> nat;

/// The height `DynamicImage::resize` picks; see `fit_width`.
pub uninterp spec fn fit_height(w: nat, h: nat, max_w: u32, max_h: u32) -> nat;

/// The lossless WebP encoding of an image, when the encoder accepts it.
pub uninterp spec fn webp_encoding(content: Seq<Seq<u32>>) -> Option<Seq<u8>>;

/// Relies on `image::load_from_memory`: it decodes the bytes with the
/// format guessed from their content, deterministically, and errs
/// exactly on bytes no supported decoder accepts.
#[verifier::external_body]
fn decode_image(bytes: &Vec<u8>) -> (r: Option<image::DynamicImage>)
    ensures
        r is Some <==> decode_of(bytes@) is Some,
        r is Some ==> image_content(r.unwrap()) == decode_of(bytes@).unwrap()
            && image_width(r.unwrap()) == decode_width(bytes@)
            && image_height(r.unwrap()) == decode_height(bytes@),
{
    image::load_from_memory(bytes.as_slice()).ok()
}

/// Relies on `DynamicImage::resize`: it scales the image to the
/// largest size that fits within the bounds, keeping the aspect ratio.
/// The output dimensions are computed with exact double-precision
/// steps (divide, take the smaller ratio, multiply, round, clamp to at
/// least one pixel), so they are a function of the input dimensions and
/// the bounds, they never exceed the bounds, they are never zero, and
/// each rounding or clamping step moves a dimension by less than one
/// pixel, which bounds the cross products `w_out * h_in` and
/// `h_out * w_in` within `w_in + h_in` of each other.
#[verifier::external_body]
fn resize_to_fit(img: &image::DynamicImage, max_w: u32, max_h: u32) -> (r: image::DynamicImage)
    requires
        max_w >= 1,
        max_h >= 1,
    ensures
        image_width(r) == fit_width(image_width(*img), image_height(*img), max_w, max_h),
        image_height(r) == fit_height(image_width(*img), image_height(*img), max_w, max_h),
        1 <= image_width(r) <= max_w,
        1 <= image_height(r) <= max_h,
        image_width(r) * image_height(*img) <= image_width(*img) * image_height(r)
            + image_width(*img) + image_height(*img),
        image_width(*img) * image_height(r) <= image_width(r) * image_height(*img)
            + image_width(*img) + image_height(*img),
{
    img.resize(max_w, max_h, image::imageops::FilterType::Lanczos3)
}

/// Relies on `GenericImageView::dimensions` for `DynamicImage`: it
/// returns the image's width and height.
#[verifier::external_body]
fn image_dims(img: &image::DynamicImage) -> (r: (u32, u32))
    ensures
        r.0 == image_width(*img),
        r.1 == image_height(*img),
{
    img.dimensions()
}

/// Relies on `DynamicImage::write_to` with `ImageFormat::WebP`: it
/// encodes the image as lossless WebP, deterministically (converting
/// the colour type if the encoder asks for it), and errs exactly on
/// images the encoder does not accept. Every colour variant converts
/// to one the encoder takes, and writing into a memory buffer cannot
/// fail, so the only refusal left is a dimension outside the format's
/// fourteen-bit range: within it, the call succeeds.
#[verifier::external_body]
fn encode_webp(img: &image::DynamicImage) -> (r: Result<Vec<u8>, String>)
    ensures
        r is Ok <==> webp_encoding(image_content(*img)) is Some,
        r is Ok ==> r.unwrap()@ == webp_encoding(image_content(*img)).unwrap(),
        1 <= image_width(*img) <= 16384 && 1 <= image_height(*img) <= 16384 ==> r is Ok,
{
    let mut buf: Vec<u8> = Vec::new();
    match img.write_to(std::io::Cursor::new(&mut buf), image::ImageFormat::WebP) {
        Ok(()) => Ok(buf),
        Err(e) => Err(e.to_string()),
    }
}

/// Whether a derived thumbnail's dimensions and bytes are what the
/// normalizer yields for these source bytes: the source decodes, the
/// dimensions are the decoded image's fitted to the cover box (inside
/// it, never zero, the aspect ratio kept within one pixel of rounding
/// per dimension), and the bytes are a lossless WebP encoding. The
/// encoded pixels themselves are resampled with a kernel whose
/// floating-point precision the platform may vary, so no clause pins
/// them to the source bytes.
pub open spec fn normalized_from(width: u32, height: u32, data: Seq<u8>, bytes: Seq<u8>) -> bool {
    &&& decode_of(bytes) is Some
    &&& width == fit_width(
        decode_width(bytes),
        decode_height(bytes),
        COVER_MAX_WIDTH,
        COVER_MAX_HEIGHT,
    )
    &&& height == fit_height(
        decode_width(bytes),
        decode_height(bytes),
        COVER_MAX_WIDTH,
        COVER_MAX_HEIGHT,
    )
    &&& 1 <= width <= COVER_MAX_WIDTH
    &&& 1 <= height <= COVER_MAX_HEIGHT
    &&& width * decode_height(bytes) <= decode_width(bytes) * height + decode_width(bytes)
        + decode_height(bytes)
    &&& decode_width(bytes) * height <= width * decode_height(bytes) + decode_width(bytes)
        + decode_height(bytes)
    &&& exists|c: Seq<Seq<u32>>| webp_encoding(c) == Some(data)
}

/// A normalized cover: the encoded WebP bytes and the dimensions of the
/// image they encode.
pub struct NormalizedCover {
    pub data: Vec<u8>,
    pub width: u32,
    pub height: u32,
}

/// Decodes raw image bytes, resizes them to fit the cover bounding box
/// with a Lanczos-class filter, and re-encodes them as lossless WebP.
pub fn normalize_cover(blob: &Vec<u8>) -> (r: Result<NormalizedCover, ImportError>)
    ensures
        r is Ok <==> decode_of(blob@) is Some,
        r matches Ok(nc) ==> normalized_from(nc.width, nc.height, nc.data@, blob@),
        r matches Err(e) ==> e is ImageDecode,
{
    match decode_image(blob) {
        None => Err(ImportError::ImageDecode),
        Some(img) => {
            let resized = resize_to_fit(&img, COVER_MAX_WIDTH, COVER_MAX_HEIGHT);
            let dims = image_dims(&resized);
            match encode_webp(&resized) {
                Err(m) => Err(ImportError::ImageEncode(m)),
                Ok(data) => Ok(NormalizedCover { data, width: dims.0, height: dims.1 }),
            }
        },
    }
}

/// The path under which a cover with this identifier is stored:
/// `<dir>/<id>.webp`. It depends on the directory and the identifier
/// alone, never on the image bytes.
pub open spec fn cover_file_path(dir: Seq<char>, id: Seq<char>) -> Seq<char> {
    dir + "/"@ + id + ".webp"@
}

/// Builds the storage path of the cover named by this identifier.
pub fn cover_path_for(covers_dir: &str, id: &str) -> (r: String)
    ensures
        r@ == cover_file_path(covers_dir@, id@),
{
    let mut p = covers_dir.to_owned();
    p.append("/");
    p.append(id);
    p.append(".webp");
    p
}

/// A derived cover file, ready to be written: its target path, the
/// encoded bytes, and the encoded image's dimensions.
pub struct CoverFile {
    pub path: String,
    pub data: Vec<u8>,
    pub width: u32,
    pub height: u32,
}

/// Normalizes caller-supplied cover bytes under a caller-supplied
/// identifier. Producing the image is this call's entire purpose, so a
/// failure to decode the bytes surfaces as an error; the caller writes
/// `data` to `path` on success.
pub fn process_cover_blob(id: &str, blob: &Vec<u8>, covers_dir: &str) -> (r: Result<
    CoverFile,
    ImportError,
>)
    ensures
        r is Ok <==> decode_of(blob@) is Some,
        r matches Ok(cf) ==> cf.path@ == cover_file_path(covers_dir@, id@)
            && normalized_from(cf.width, cf.height, cf.data@, blob@),
        r matches Err(e) ==> e is ImageDecode,
{
    match normalize_cover(blob) {
        Err(e) => Err(e),
        Ok(nc) => Ok(
            CoverFile {
                path: cover_path_for(covers_dir, id),
                data: nc.data,
                width: nc.width,
                height: nc.height,
            },
        ),
    }
}

/// Reprocessing a cover under an identifier already in use names the
/// very same file: the second write overwrites the first, and no
/// duplicate artifact can accumulate, whatever bytes either call was
/// given.
pub proof fn lemma_same_id_same_target(r1: CoverFile, r2: CoverFile, dir: Seq<char>, id: Seq<char>)
    requires
        r1.path@ == cover_file_path(dir, id),
        r2.path@ == cover_file_path(dir, id),
    ensures
        r1.path@ == r2.path@,
{
}

} // verus!
