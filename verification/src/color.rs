//! Colours as four fully specified 8-bit channels.

use vstd::prelude::*;

verus! {

/// A colour: red, green, blue and alpha, each 0 to 255, stored as given.
#[derive(Clone, Copy, Debug, PartialEq, Eq, Structural)]
pub struct Rgba {
    pub r: u8,
    pub g: u8,
    pub b: u8,
    pub a: u8,
}

/// Builds a colour with `egui`'s `Color32::from_rgb` and reads its channels back with
/// `Color32::to_array`.
///
/// Trusted: `from_rgb` stores the three channels unchanged beside an alpha of 255, and
/// `to_array` hands the four stored bytes out in the order red, green, blue, alpha.
#[verifier::external_body]
fn color32_from_rgb(r: u8, g: u8, b: u8) -> (c: Rgba)
    ensures
        c == (Rgba { r, g, b, a: 255 }),
{
    let c = eframe::egui::Color32::from_rgb(r, g, b).to_array();
    Rgba { r: c[0], g: c[1], b: c[2], a: c[3] }
}

impl Rgba {
    pub fn new(r: u8, g: u8, b: u8, a: u8) -> (c: Rgba)
        ensures
            c == (Rgba { r, g, b, a }),
    {
        Rgba { r, g, b, a }
    }

    /// The opaque colour with the given red, green and blue channels.
    pub fn opaque(r: u8, g: u8, b: u8) -> (c: Rgba)
        ensures
            c == (Rgba { r, g, b, a: 255 }),
    {
        color32_from_rgb(r, g, b)
    }
}

/// The six colours offered by default: red, green, blue, yellow, near-white and violet.
pub open spec fn default_palette_spec() -> Seq<Rgba> {
    seq![
        Rgba { r: 255, g: 77, b: 77, a: 255 },
        Rgba { r: 80, g: 220, b: 100, a: 255 },
        Rgba { r: 85, g: 170, b: 255, a: 255 },
        Rgba { r: 255, g: 230, b: 90, a: 255 },
        Rgba { r: 245, g: 245, b: 245, a: 255 },
        Rgba { r: 204, g: 128, b: 255, a: 255 },
    ]
}

pub fn default_palette() -> (palette: Vec<Rgba>)
    ensures
        palette@ == default_palette_spec(),
{
    let mut palette: Vec<Rgba> = Vec::new();
    palette.push(Rgba::opaque(255, 77, 77));
    palette.push(Rgba::opaque(80, 220, 100));
    palette.push(Rgba::opaque(85, 170, 255));
    palette.push(Rgba::opaque(255, 230, 90));
    palette.push(Rgba::opaque(245, 245, 245));
    palette.push(Rgba::opaque(204, 128, 255));
    palette
}

} // verus!
