//! Cover art for a record: decoding fetched bytes into a bitmap, and
//! substituting a blank placeholder whenever no bitmap can be had, so
//! that presentation never fails on account of the image.

use vstd::prelude::*;

verus! {

/// A decoded bitmap of the `image` crate, carried opaquely: the
/// library never reads its contents, it only hands it to the
/// terminal renderer.
#[verifier::external_type_specification]
#[verifier::external_body]
pub struct ExDynamicImage(image::DynamicImage);

/// Whether a byte sequence decodes as an image. The decoder guesses
/// the format from the bytes and decodes them, so the outcome is a
/// function of the bytes alone.
pub uninterp spec fn image_decode_ok(bytes: Seq<u8>) -> bool;

/// Relies on image::load_from_memory: guesses the format from the
/// byte content and decodes; success depends on the bytes alone.
/// The image crate also consults process-global decoder registries
/// on every decode; they start empty and nothing here registers one,
/// but a host program that did so mid-run could make the same bytes
/// decode differently than the name `image_decode_ok` states.
#[verifier::external_body]
fn decode_image(bytes: &[u8]) -> (r: Option<image::DynamicImage>)
    ensures
        r is Some <==> image_decode_ok(bytes@),
{
    image::load_from_memory(bytes).ok()
}

/// Relies on DynamicImage::new_rgba8: a zero-by-zero blank bitmap,
/// used as the placeholder when no cover art can be obtained.
#[verifier::external_body]
fn blank_image() -> image::DynamicImage {
    image::DynamicImage::new_rgba8(0, 0)
}

/// The cover art held beside a record: a bitmap, and whether it was
/// decoded from fetched bytes or is the blank placeholder.
pub struct AnilistImage {
    pub image: image::DynamicImage,
    pub decoded: bool,
}

impl AnilistImage {
    /// Wrap a bitmap decoded from fetched cover-image bytes: the
    /// given bitmap is stored unchanged.
    pub fn new(image: image::DynamicImage) -> (r: Self)
        ensures
            r.decoded,
            r.image == image,
    {
        AnilistImage { image, decoded: true }
    }
}

impl Default for AnilistImage {
    /// The placeholder: a blank zero-sized bitmap.
    fn default() -> (r: Self)
        ensures
            !r.decoded,
    {
        AnilistImage { image: blank_image(), decoded: false }
    }
}

/// Turn the outcome of a cover-image fetch into the cover art to
/// present: decode the bytes where there are any, and fall back to
/// the placeholder when there are none or they do not decode. This
/// never fails: an undecodable body yields the placeholder, not an
/// error.
pub fn make_cover(bytes: Option<&[u8]>) -> (r: AnilistImage)
    ensures
        r.decoded <==> (bytes is Some && image_decode_ok(bytes->0@)),
{
    match bytes {
        None => AnilistImage::default(),
        Some(b) => match decode_image(b) {
            Some(img) => AnilistImage::new(img),
            None => AnilistImage::default(),
        },
    }
}

} // verus!
