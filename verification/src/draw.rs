//! Drawing primitives as plain values.
//!
//! Nothing here touches a screen. An effect describes what it would draw as a
//! list of [`DrawCommand`]s, and whoever owns the drawing surface carries them
//! out in order. Lengths and positions are in thousandths of a pixel, angles in
//! millionths of a radian, so every quantity an effect computes is exact.

use vstd::prelude::*;

verus! {

/// Thousandths of a pixel in one pixel.
pub const SUBPIXELS: i128 = 1000;

/// Millionths of a radian in one radian.
pub const MICRORADIANS: i128 = 1000000;

/// An opaque colour, one byte per channel.
#[derive(Clone, Copy, Debug, PartialEq, Eq, Structural)]
pub struct Color {
    pub r: u8,
    pub g: u8,
    pub b: u8,
}

/// A point on an axis-aligned ellipse: the position
/// `(center_x + radius_x * cos(angle), center_y + radius_y * sin(angle))`.
///
/// The trigonometry is left to the renderer; the fields fix its arguments.
#[derive(Clone, Copy, Debug, PartialEq, Eq, Structural)]
pub struct PolarPoint {
    pub center_x: i128,
    pub center_y: i128,
    pub radius_x: i128,
    pub radius_y: i128,
    pub angle: i128,
}

/// One drawing operation against whatever target is currently active.
#[derive(Clone, Copy, Debug, PartialEq, Eq, Structural)]
pub enum DrawCommand {
    /// Fill the whole target with one colour.
    Clear { color: Color },
    /// A filled rectangle whose top-left corner is `(x, y)`.
    Rectangle { x: i128, y: i128, width: i128, height: i128, color: Color },
    /// A filled circle.
    Circle { center_x: i128, center_y: i128, radius: i128, color: Color },
    /// A straight segment between two points.
    Line { from: PolarPoint, to: PolarPoint, thickness: i128, color: Color },
    /// The tempo readout, anchored at `(x, y)`; the tempo is in tenths of a beat per minute.
    TempoLabel { x: i128, y: i128, tempo: u32, color: Color },
}

impl Color {
    /// The colour with the given red, green and blue channels.
    pub fn rgb(r: u8, g: u8, b: u8) -> (c: Color)
        ensures
            c == (Color { r, g, b }),
    {
        Color { r, g, b }
    }
}

} // verus!
