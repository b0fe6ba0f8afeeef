//! Inline chart images for iTerm2-compatible terminals: a PNG sized in
//! terminal cells, transmitted as a base64 escape sequence.

use base64::Engine;
use image::{ExtendedColorType, ImageFormat};
use std::io::Cursor;

use vstd::prelude::*;

use crate::text::{decimal, push_char, push_decimal};

verus! {

/// The standard (padded) base64 text of `bytes`.
pub uninterp spec fn base64_text(bytes: Seq<u8>) -> Seq<char>;

/// The PNG file the image crate encodes for an 8-bit RGBA pixel buffer of
/// the given size, or `None` when the encoder reports an error.
pub uninterp spec fn png_rgba8(pixels: Seq<u8>, width: u32, height: u32) -> Option<Seq<u8>>;

/// Standard base64 with padding (`base64::engine::general_purpose::STANDARD`
/// and `Engine::encode`): the result is the encoding of `bytes`.
#[verifier::external_body]
fn base64_encode(bytes: &[u8]) -> (s: String)
    ensures
        s@ == base64_text(bytes@),
{
    base64::engine::general_purpose::STANDARD.encode(bytes)
}

/// PNG-encodes an RGBA8 buffer (`image::write_buffer_with_format` with
/// `ImageFormat::Png`) into memory; the result is the encoder's output for
/// these arguments, or `None` on an encoder error. The buffer length must be
/// `width * height * 4`, which the encoder asserts.
#[verifier::external_body]
fn png_encode_rgba8(pixels: &[u8], width: u32, height: u32) -> (r: Option<Vec<u8>>)
    requires
        pixels@.len() == width as int * height as int * 4,
    ensures
        match r {
            Some(v) => png_rgba8(pixels@, width, height) == Some(v@),
            None => png_rgba8(pixels@, width, height) is None,
        },
{
    let mut out: Vec<u8> = Vec::new();
    match image::write_buffer_with_format(
        &mut Cursor::new(&mut out),
        pixels,
        width,
        height,
        ExtendedColorType::Rgba8,
        ImageFormat::Png,
    ) {
        Ok(()) => Some(out),
        Err(_) => None,
    }
}

/// The iTerm2 inline-image escape for a PNG shown across `cols` × `rows`
/// cells: stretched to the cell box, cursor left in place.
pub open spec fn escape_text(png: Seq<u8>, cols: u16, rows: u16) -> Seq<char> {
    seq!['\u{1b}'] + "]1337;File=inline=1;size="@ + decimal(png.len()) + ";width="@ + decimal(
        cols as nat,
    ) + ";height="@ + decimal(rows as nat) + ";preserveAspectRatio=0;doNotMoveCursor=1:"@
        + base64_text(png) + seq!['\u{7}']
}

/// Wrap PNG bytes in an iTerm2 inline-image escape sized in cells.
pub fn iterm2_escape(png: &[u8], cols: u16, rows: u16) -> (s: String)
    ensures
        s@ == escape_text(png@, cols, rows),
{
    let mut s = String::new();
    push_char(&mut s, '\u{1b}');
    s.append("]1337;File=inline=1;size=");
    push_decimal(&mut s, png.len() as u64);
    s.append(";width=");
    push_decimal(&mut s, cols as u64);
    s.append(";height=");
    push_decimal(&mut s, rows as u64);
    s.append(";preserveAspectRatio=0;doNotMoveCursor=1:");
    let b64 = base64_encode(png);
    s.append(b64.as_str());
    push_char(&mut s, '\u{7}');
    s
}

/// PNG-encode an RGBA8 image and wrap it in an iTerm2 inline-image escape
/// sized in cells; an encoder failure yields the empty string.
pub fn encode_iterm2_cells(pixels: &[u8], width: u32, height: u32, cols: u16, rows: u16) -> (s:
    String)
    requires
        pixels@.len() == width as int * height as int * 4,
    ensures
        match png_rgba8(pixels@, width, height) {
            Some(png) => s@ == escape_text(png, cols, rows),
            None => s@ == Seq::<char>::empty(),
        },
{
    match png_encode_rgba8(pixels, width, height) {
        Some(png) => iterm2_escape(png.as_slice(), cols, rows),
        None => String::new(),
    }
}

} // verus!
