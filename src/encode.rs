//! Serialisation of an image: a lossless PNG, then its base64 text.

use vstd::prelude::*;
use crate::error::CaptureError;

verus! {

/// The PNG file that the image crate writes for an RGBA image, or `None` where
/// its writer refuses the image.
pub uninterp spec fn png_of(width: u32, height: u32, pixels: Seq<u8>) -> Option<Seq<u8>>;

/// The standard base64 alphabet: `A`-`Z`, `a`-`z`, `0`-`9`, `+`, `/`.
pub open spec fn base64_alphabet() -> Seq<char> {
    seq![
        'A', 'B', 'C', 'D', 'E', 'F', 'G', 'H',
        'I', 'J', 'K', 'L', 'M', 'N', 'O', 'P',
        'Q', 'R', 'S', 'T', 'U', 'V', 'W', 'X',
        'Y', 'Z', 'a', 'b', 'c', 'd', 'e', 'f',
        'g', 'h', 'i', 'j', 'k', 'l', 'm', 'n',
        'o', 'p', 'q', 'r', 's', 't', 'u', 'v',
        'w', 'x', 'y', 'z', '0', '1', '2', '3',
        '4', '5', '6', '7', '8', '9', '+', '/',
    ]
}

/// The character for a six-bit value.
pub open spec fn sextet(v: int) -> char {
    base64_alphabet()[v]
}

/// The standard, padded base64 text of `bytes`: each group of three bytes
/// becomes four characters of six bits each; a last group of one or two bytes
/// is padded with `=` to four characters.
pub open spec fn base64_of(bytes: Seq<u8>) -> Seq<char>
    decreases bytes.len(),
{
    if bytes.len() == 0 {
        Seq::empty()
    } else if bytes.len() == 1 {
        let x = bytes[0] as int;
        seq![sextet(x / 4), sextet((x % 4) * 16), '=', '=']
    } else if bytes.len() == 2 {
        let x = bytes[0] as int;
        let y = bytes[1] as int;
        seq![sextet(x / 4), sextet((x % 4) * 16 + y / 16), sextet((y % 16) * 4), '=']
    } else {
        let x = bytes[0] as int;
        let y = bytes[1] as int;
        let z = bytes[2] as int;
        seq![sextet(x / 4), sextet((x % 4) * 16 + y / 16), sextet((y % 16) * 4 + z / 64), sextet(z % 64)]
            + base64_of(bytes.subrange(3, bytes.len() as int))
    }
}

/// A character that base64 text may hold: one of the alphabet, or the padding `=`.
pub open spec fn text_safe_char(c: char) -> bool {
    base64_alphabet().contains(c) || c == '='
}

/// Base64 text is four characters for every three bytes or part of three, and
/// holds only characters of the alphabet and the padding.
pub proof fn lemma_base64_text_safe(bytes: Seq<u8>)
    ensures
        base64_of(bytes).len() == (bytes.len() + 2) / 3 * 4,
        forall|i: int| 0 <= i < base64_of(bytes).len() ==> text_safe_char(#[trigger] base64_of(bytes)[i]),
    decreases bytes.len(),
{
    let a = base64_alphabet();
    assert(a.len() == 64);
    assert forall|v: int| 0 <= v < 64 implies a.contains(#[trigger] sextet(v)) by {
        assert(a[v] == sextet(v));
    }
    if bytes.len() >= 3 {
        let rest = bytes.subrange(3, bytes.len() as int);
        lemma_base64_text_safe(rest);
        let r = base64_of(bytes);
        assert forall|i: int| 0 <= i < r.len() implies text_safe_char(#[trigger] r[i]) by {
            if i >= 4 {
                assert(r[i] == base64_of(rest)[i - 4]);
            }
        }
    }
}

/// Relies on image::ImageBuffer::write_to with ImageFormat::Png, which runs the
/// png crate's encoder with fixed settings into an in-memory buffer: whether it
/// succeeds, and the bytes it writes, depend on the image's size and pixels
/// alone. The encoder refuses a zero width or height.
#[verifier::external_body]
fn write_png(width: u32, height: u32, pixels: &Vec<u8>) -> (r: Result<Vec<u8>, image::ImageError>)
    requires
        pixels@.len() == 4 * width * height,
    ensures
        r is Ok <==> png_of(width, height, pixels@) is Some,
        r matches Ok(b) ==> png_of(width, height, pixels@) == Some(b@),
        (width == 0 || height == 0) ==> r is Err,
{
    let img = image::ImageBuffer::<image::Rgba<u8>, &[u8]>::from_raw(
        width,
        height,
        pixels.as_slice(),
    ).unwrap();
    let mut buf: Vec<u8> = Vec::new();
    let res = img.write_to(&mut std::io::Cursor::new(&mut buf), image::ImageFormat::Png);
    match res {
        Ok(()) => Ok(buf),
        Err(e) => Err(e),
    }
}

/// Relies on base64::Engine::encode with general_purpose::STANDARD: the padded
/// base64 text of the bytes. It panics where the text's length overflows
/// `usize`, which `requires` leaves out.
#[verifier::external_body]
fn to_base64(bytes: &Vec<u8>) -> (r: String)
    requires
        bytes@.len() / 3 * 4 + 4 <= usize::MAX,
    ensures
        r@ == base64_of(bytes@),
{
    base64::Engine::encode(&base64::engine::general_purpose::STANDARD, bytes)
}

/// The base64 text of a PNG file can be held in memory.
pub open spec fn text_fits(png: Seq<u8>) -> bool {
    png.len() / 3 * 4 + 4 <= usize::MAX
}

/// Turns the outcome of PNG serialisation into the text handed to the caller:
/// the base64 of the file, or the failure that stopped it.
pub fn text_safe(png: Result<Vec<u8>, image::ImageError>) -> (r: Result<String, CaptureError>)
    ensures
        png matches Ok(b) ==> (text_fits(b@) ==> (r matches Ok(s) && s@ == base64_of(b@))),
        png matches Ok(b) ==> (!text_fits(b@) ==> r matches Err(CaptureError::EncodedTooLarge)),
        png matches Err(e) ==> (r matches Err(CaptureError::EncodeFailure(e2)) && e2 == e),
{
    match png {
        Ok(b) => {
            if b.len() / 3 > (usize::MAX - 4) / 4 {
                Err(CaptureError::EncodedTooLarge)
            } else {
                Ok(to_base64(&b))
            }
        },
        Err(e) => Err(CaptureError::EncodeFailure(e)),
    }
}

/// What encoding an image yields: the base64 text of its PNG file; or
/// `EncodeFailure` where the PNG writer refuses the image; or `EncodedTooLarge`
/// where the file's text cannot be held in memory.
pub open spec fn encode_result(
    r: Result<String, CaptureError>,
    width: u32,
    height: u32,
    pixels: Seq<u8>,
) -> bool {
    match png_of(width, height, pixels) {
        None => r matches Err(CaptureError::EncodeFailure(_)),
        Some(b) => if text_fits(b) {
            r matches Ok(s) && s@ == base64_of(b)
        } else {
            r matches Err(CaptureError::EncodedTooLarge)
        },
    }
}

/// Serialises an RGBA image to PNG, then to base64 text. The whole buffer is
/// handed to the PNG writer; its failure comes back as `EncodeFailure`.
pub fn encode_image(width: u32, height: u32, pixels: &Vec<u8>) -> (r: Result<String, CaptureError>)
    requires
        pixels@.len() == 4 * width * height,
    ensures
        encode_result(r, width, height, pixels@),
        (width == 0 || height == 0) ==> r matches Err(CaptureError::EncodeFailure(_)),
{
    text_safe(write_png(width, height, pixels))
}

} // verus!
