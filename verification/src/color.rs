//! The palette the monitor draws with, and its encoding into the display's
//! 16-bit 5-6-5 pixel format.
//!
//! The panel driver consumes `Rgb565` values from `embedded_graphics`; each
//! named color here stands for exactly one of that crate's color constants,
//! and the trusted wrappers below pin down the raw 16-bit word each constant
//! packs to.

use vstd::prelude::*;

use embedded_graphics::pixelcolor::{IntoStorage, Rgb565, RgbColor, WebColors};

verus! {

/// The colors the monitor ever shows: one alert color per severity bucket,
/// plus black (boot screen) and white (text).
#[derive(Clone, Copy, Debug, PartialEq, Eq, Structural)]
pub enum Color {
    Blue,
    Green,
    Orange,
    IndianRed,
    Violet,
    DarkViolet,
    Black,
    White,
}

/// The raw 5-6-5 word each named color packs to on the panel.
pub open spec fn rgb565_raw_spec(c: Color) -> u16 {
    match c {
        Color::Blue => 0x001f,
        Color::Green => 0x07e0,
        Color::Orange => 0xfd20,
        Color::IndianRed => 0xcaeb,
        Color::Violet => 0xec1d,
        Color::DarkViolet => 0x901a,
        Color::Black => 0x0000,
        Color::White => 0xffff,
    }
}

/// Relies on `embedded_graphics::pixelcolor::RgbColor::BLUE` for `Rgb565`:
/// full blue channel, raw word 0x001f.
#[verifier::external_body]
fn rgb565_blue() -> (r: u16)
    ensures
        r == 0x001fu16,
{
    Rgb565::BLUE.into_storage()
}

/// Relies on `embedded_graphics::pixelcolor::RgbColor::GREEN` for `Rgb565`:
/// full green channel, raw word 0x07e0.
#[verifier::external_body]
fn rgb565_green() -> (r: u16)
    ensures
        r == 0x07e0u16,
{
    Rgb565::GREEN.into_storage()
}

/// Relies on `embedded_graphics::pixelcolor::WebColors::CSS_ORANGE` for
/// `Rgb565`: CSS rgb(255, 165, 0) rounded to 5-6-5, raw word 0xfd20.
#[verifier::external_body]
fn rgb565_orange() -> (r: u16)
    ensures
        r == 0xfd20u16,
{
    Rgb565::CSS_ORANGE.into_storage()
}

/// Relies on `embedded_graphics::pixelcolor::WebColors::CSS_INDIAN_RED` for
/// `Rgb565`: CSS rgb(205, 92, 92) rounded to 5-6-5, raw word 0xcaeb.
#[verifier::external_body]
fn rgb565_indian_red() -> (r: u16)
    ensures
        r == 0xcaebu16,
{
    Rgb565::CSS_INDIAN_RED.into_storage()
}

/// Relies on `embedded_graphics::pixelcolor::WebColors::CSS_VIOLET` for
/// `Rgb565`: CSS rgb(238, 130, 238) rounded to 5-6-5, raw word 0xec1d.
#[verifier::external_body]
fn rgb565_violet() -> (r: u16)
    ensures
        r == 0xec1du16,
{
    Rgb565::CSS_VIOLET.into_storage()
}

/// Relies on `embedded_graphics::pixelcolor::WebColors::CSS_DARK_VIOLET` for
/// `Rgb565`: CSS rgb(148, 0, 211) rounded to 5-6-5, raw word 0x901a.
#[verifier::external_body]
fn rgb565_dark_violet() -> (r: u16)
    ensures
        r == 0x901au16,
{
    Rgb565::CSS_DARK_VIOLET.into_storage()
}

/// Relies on `embedded_graphics::pixelcolor::RgbColor::BLACK` for `Rgb565`:
/// all channels zero, raw word 0x0000.
#[verifier::external_body]
fn rgb565_black() -> (r: u16)
    ensures
        r == 0x0000u16,
{
    Rgb565::BLACK.into_storage()
}

/// Relies on `embedded_graphics::pixelcolor::RgbColor::WHITE` for `Rgb565`:
/// all channels full, raw word 0xffff.
#[verifier::external_body]
fn rgb565_white() -> (r: u16)
    ensures
        r == 0xffffu16,
{
    Rgb565::WHITE.into_storage()
}

impl Color {
    /// The raw 16-bit 5-6-5 word this color packs to, obtained from the
    /// display crate's own color constants.
    pub fn rgb565_raw(self) -> (r: u16)
        ensures
            r == rgb565_raw_spec(self),
    {
        match self {
            Color::Blue => rgb565_blue(),
            Color::Green => rgb565_green(),
            Color::Orange => rgb565_orange(),
            Color::IndianRed => rgb565_indian_red(),
            Color::Violet => rgb565_violet(),
            Color::DarkViolet => rgb565_dark_violet(),
            Color::Black => rgb565_black(),
            Color::White => rgb565_white(),
        }
    }
}

} // verus!
