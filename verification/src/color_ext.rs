//! Cell colours and their red, green and blue components.

use vstd::prelude::*;

verus! {

/// A terminal colour: one of the sixteen named ones, a palette index, or
/// explicit components.
#[derive(Clone, Copy, Debug, PartialEq, Eq, Structural, Hash)]
pub enum Color {
    Reset,
    Black,
    Red,
    Green,
    Yellow,
    Blue,
    Magenta,
    Cyan,
    Gray,
    DarkGray,
    LightRed,
    LightGreen,
    LightYellow,
    LightBlue,
    LightMagenta,
    LightCyan,
    White,
    Rgb(u8, u8, u8),
    Indexed(u8),
}

/// One component of an entry of the 6x6x6 colour cube, from its level 0 to 5.
pub open spec fn cube_component(level: int) -> u8 {
    if level == 0 {
        0
    } else {
        (level * 40 + 55) as u8
    }
}

/// The components of an entry of the 256-colour palette: the sixteen named
/// colours first, then the colour cube, then twenty-four shades of grey.
pub open spec fn ansi256_components(code: u8) -> (u8, u8, u8) {
    if code < 16 {
        let base: int = if code == 8 {
            7
        } else {
            code as int
        };
        let scale: int = if code == 7 {
            192
        } else if code > 8 {
            255
        } else {
            128
        };
        (
            ((base % 2) * scale) as u8,
            (((base / 2) % 2) * scale) as u8,
            (((base / 4) % 2) * scale) as u8,
        )
    } else if code > 231 {
        let gray = ((code - 232) * 10 + 8) as u8;
        (gray, gray, gray)
    } else {
        let entry = code - 16;
        (cube_component(entry / 36), cube_component((entry / 6) % 6), cube_component(entry % 6))
    }
}

/// The level of the colour cube that a component falls on.
pub open spec fn cube_level(component: u8) -> int {
    if component < 75 {
        0
    } else {
        (component - 35) / 40
    }
}

/// The entry of the colour cube that stands for the given components.
pub open spec fn ansi256_code(red: u8, green: u8, blue: u8) -> u8 {
    (36 * cube_level(red) + 6 * cube_level(green) + cube_level(blue) + 16) as u8
}

/// The components a colour is rendered with.
pub open spec fn rgb_of(color: Color) -> (u8, u8, u8) {
    match color {
        Color::Rgb(r, g, b) => (r, g, b),
        Color::Reset => (0, 0, 0),
        Color::Black => (0, 0, 0),
        Color::Red => (128, 0, 0),
        Color::Green => (0, 128, 0),
        Color::Yellow => (128, 128, 0),
        Color::Blue => (0, 0, 128),
        Color::Magenta => (128, 0, 128),
        Color::Cyan => (0, 128, 128),
        Color::Gray => (128, 128, 128),
        Color::DarkGray => (96, 96, 96),
        Color::LightRed => (255, 0, 0),
        Color::LightGreen => (0, 255, 0),
        Color::LightYellow => (255, 255, 0),
        Color::LightBlue => (0, 0, 255),
        Color::LightMagenta => (255, 0, 255),
        Color::LightCyan => (0, 255, 255),
        Color::White => (192, 192, 192),
        Color::Indexed(code) => ansi256_components(code),
    }
}

pub trait ToRgbComponents {
    spec fn components(&self) -> (u8, u8, u8);

    fn to_rgb(&self) -> (rgb: (u8, u8, u8))
        ensures
            rgb == self.components(),
    ;
}

pub trait AsIndexedColor {
    /// The entry of the 256-colour palette that stands for the colour.
    spec fn indexed(&self) -> Color;

    fn as_indexed_color(&self) -> (indexed: Color)
        ensures
            indexed == self.indexed(),
    ;
}

impl ToRgbComponents for Color {
    open spec fn components(&self) -> (u8, u8, u8) {
        rgb_of(*self)
    }

    fn to_rgb(&self) -> (rgb: (u8, u8, u8)) {
        match self {
            Color::Rgb(r, g, b) => (*r, *g, *b),
            Color::Reset => (0, 0, 0),
            Color::Black => (0, 0, 0),
            Color::Red => (128, 0, 0),
            Color::Green => (0, 128, 0),
            Color::Yellow => (128, 128, 0),
            Color::Blue => (0, 0, 128),
            Color::Magenta => (128, 0, 128),
            Color::Cyan => (0, 128, 128),
            Color::Gray => (128, 128, 128),
            Color::DarkGray => (96, 96, 96),
            Color::LightRed => (255, 0, 0),
            Color::LightGreen => (0, 255, 0),
            Color::LightYellow => (255, 255, 0),
            Color::LightBlue => (0, 0, 255),
            Color::LightMagenta => (255, 0, 255),
            Color::LightCyan => (0, 255, 255),
            Color::White => (192, 192, 192),
            Color::Indexed(code) => palette_components(*code),
        }
    }
}

impl AsIndexedColor for Color {
    open spec fn indexed(&self) -> Color {
        Color::Indexed(ansi256_code(rgb_of(*self).0, rgb_of(*self).1, rgb_of(*self).2))
    }

    /// The palette entry closest to this colour.
    fn as_indexed_color(&self) -> (indexed: Color) {
        let (r, g, b) = self.to_rgb();
        Color::Indexed(palette_code(r, g, b))
    }
}

/// `colorsys::Ansi256::as_rgb`, each component rounded to a byte: the
/// arithmetic of `ansi256_components`.
#[verifier::external_body]
fn palette_components(code: u8) -> (rgb: (u8, u8, u8))
    ensures
        rgb == ansi256_components(code),
{
    let rgb = colorsys::Ansi256::new(code).as_rgb();
    (rgb.red().round() as u8, rgb.green().round() as u8, rgb.blue().round() as u8)
}

/// `colorsys::Ansi256::from` on an `Rgb` built from the three components,
/// followed by `code`: the arithmetic of `ansi256_code`.
#[verifier::external_body]
fn palette_code(red: u8, green: u8, blue: u8) -> (code: u8)
    ensures
        code == ansi256_code(red, green, blue),
{
    colorsys::Ansi256::from(colorsys::Rgb::from([red, green, blue])).code()
}

} // verus!
