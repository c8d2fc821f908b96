//! A 4-byte RGBA color value.

use vstd::prelude::*;

verus! {

/// An RGBA color: exactly four unsigned byte components, copied by value.
///
/// The components are named fields so that their order is unambiguous;
/// the storage order of [`Color::as_bytes`] is `r, g, b, a`.
#[derive(Clone, Copy, PartialEq, Eq, Structural, Debug)]
pub struct Color {
    pub r: u8,
    pub g: u8,
    pub b: u8,
    pub a: u8,
}

impl Color {
    /// Constructs a color from a byte slice holding exactly the four
    /// components, in storage order `r, g, b, a`.
    pub fn from_bytes(bytes: &[u8]) -> (c: Color)
        requires
            bytes@.len() == 4,
        ensures
            c.r == bytes@[0],
            c.g == bytes@[1],
            c.b == bytes@[2],
            c.a == bytes@[3],
    {
        Color { r: bytes[0], g: bytes[1], b: bytes[2], a: bytes[3] }
    }

    /// Constructs a color from its four components.
    pub fn from_rgba(r: u8, g: u8, b: u8, a: u8) -> (c: Color)
        ensures
            c == (Color { r, g, b, a }),
    {
        Color { r, g, b, a }
    }

    /// Constructs a fully opaque color: alpha is 255.
    pub fn from_rgb(r: u8, g: u8, b: u8) -> (c: Color)
        ensures
            c == (Color { r, g, b, a: 255u8 }),
    {
        Color::from_rgba(r, g, b, 255)
    }

    /// The four components in storage order `r, g, b, a`.
    pub fn as_bytes(&self) -> (bytes: [u8; 4])
        ensures
            bytes@ == seq![self.r, self.g, self.b, self.a],
    {
        let bytes = [self.r, self.g, self.b, self.a];
        proof {
            assert(bytes@ =~= seq![self.r, self.g, self.b, self.a]);
        }
        bytes
    }
}

} // verus!
