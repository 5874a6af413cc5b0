//! Sprite sheets: decoding an image file into RGBA pixels and making its
//! flat backdrop transparent.

use vstd::prelude::*;
use crate::animation::{matches_backdrop, remove_flat_background};

verus! {

/// A decoded sprite sheet: its size in pixels and its RGBA bytes, row by
/// row.
pub struct SheetImage {
    pub width: u16,
    pub height: u16,
    pub rgba: Vec<u8>,
}

/// The width, height and RGBA bytes that macroquad's image decoding makes
/// of an encoded image file, or `None` when the file is not an image it
/// reads.
pub uninterp spec fn decoded_image(bytes: Seq<u8>) -> Option<(u16, u16, Seq<u8>)>;

/// Decodes an encoded image file with
/// `macroquad::texture::Image::from_file_with_format`, letting it guess the
/// format.  Trusted: the result is `decoded_image` of the file's bytes,
/// `None` exactly when decoding fails; width, height and bytes are the
/// fields of macroquad's `Image`.
#[verifier::external_body]
fn decode_image(bytes: &[u8]) -> (image: Option<SheetImage>)
    ensures
        image is Some <==> decoded_image(bytes@) is Some,
        image matches Some(i) ==> decoded_image(bytes@) == Some((i.width, i.height, i.rgba@)),
{
    match macroquad::texture::Image::from_file_with_format(bytes, None) {
        Ok(i) => Some(SheetImage { width: i.width, height: i.height, rgba: i.bytes }),
        Err(_) => None,
    }
}

/// RGBA bytes with the backdrop made transparent: every byte stays, but the
/// alpha of each pixel within a colour distance of 6 of the first pixel.
pub open spec fn without_backdrop(rgba: Seq<u8>) -> Seq<u8> {
    Seq::new(
        rgba.len(),
        |i: int|
            if i % 4 == 3 && matches_backdrop(rgba, i / 4) {
                0u8
            } else {
                rgba[i]
            },
    )
}

/// Decodes a sprite sheet file and makes its flat backdrop transparent.
/// Returns `None` when the file cannot be decoded.  An image of less than
/// one whole pixel has no backdrop colour and is returned as decoded.
pub fn prepare_sheet(bytes: &[u8]) -> (sheet: Option<SheetImage>)
    ensures
        sheet is Some <==> decoded_image(bytes@) is Some,
        sheet matches Some(s) ==> {
            let (width, height, rgba) = decoded_image(bytes@)->0;
            &&& s.width == width
            &&& s.height == height
            &&& s.rgba@ == (if rgba.len() >= 4 {
                without_backdrop(rgba)
            } else {
                rgba
            })
        },
{
    match decode_image(bytes) {
        Some(image) => {
            let mut image = image;
            if image.rgba.len() >= 4 {
                let ghost decoded = image.rgba@;
                remove_flat_background(&mut image.rgba);
                assert(image.rgba@ =~= without_backdrop(decoded));
            }
            Some(image)
        },
        None => None,
    }
}

} // verus!
