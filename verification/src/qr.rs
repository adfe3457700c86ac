//! The QR code that carries the chat's address to another device.

use vstd::prelude::*;
use vstd::string::StringExecFns;

verus! {

/// The least width and height of the picture, in pixels.
pub const QR_MIN_SIDE: u16 = 256;

/// The SVG text that the `qrcode` crate draws for `data` at the medium error
/// correction level, in a picture of at least `min_width` by `min_height`
/// pixels; `None` where it cannot encode `data`.
pub uninterp spec fn qr_svg(data: Seq<char>, min_width: u16, min_height: u16) -> Option<Seq<char>>;

/// Calls `qrcode::QrCode::new` on the bytes of `data` and renders the code
/// with `render::<svg::Color>()`, `min_dimensions` and `build`. The contract
/// claims only that the outcome is the one named `qr_svg`: the same text and
/// sizes always give the same picture, or always none. The sizes are `u16`
/// so that the renderer's 32-bit arithmetic on them cannot overflow.
#[verifier::external_body]
fn render_qr_svg(data: &str, min_width: u16, min_height: u16) -> (svg: Option<String>)
    ensures
        match svg {
            Some(text) => qr_svg(data@, min_width, min_height) == Some(text@),
            None => qr_svg(data@, min_width, min_height) is None,
        },
{
    match qrcode::QrCode::new(data) {
        Ok(code) => Some(
            code.render::<qrcode::render::svg::Color>().min_dimensions(
                min_width as u32,
                min_height as u32,
            ).build(),
        ),
        Err(_) => None,
    }
}

/// The picture to show for a rendering: the rendering itself, or an empty
/// SVG element where there is none.
pub open spec fn svg_or_empty(rendered: Option<Seq<char>>) -> Seq<char> {
    match rendered {
        Some(svg) => svg,
        None => "<svg></svg>"@,
    }
}

/// The picture to show for a rendering: the rendering itself, or an empty
/// SVG element where there is none.
pub fn picture_for(rendered: Option<String>) -> (picture: String)
    ensures
        picture@ == svg_or_empty(
            match rendered {
                Some(svg) => Some(svg@),
                None => None,
            },
        ),
{
    match rendered {
        Some(svg) => svg,
        None => String::from_str("<svg></svg>"),
    }
}

/// The QR code of `url` as SVG text, at least 256 pixels wide and high; an
/// empty SVG element where `url` cannot be encoded.
pub fn qr_code_svg(url: &str) -> (picture: String)
    ensures
        picture@ == svg_or_empty(qr_svg(url@, QR_MIN_SIDE, QR_MIN_SIDE)),
{
    picture_for(render_qr_svg(url, QR_MIN_SIDE, QR_MIN_SIDE))
}

} // verus!
