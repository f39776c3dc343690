use vstd::prelude::*;

verus! {

/// An RGBA color. Each channel is a byte; 255 stands for a fully
/// saturated channel (the renderer maps it to 1.0 before upload).
#[derive(Clone, Copy, Debug, PartialEq, Eq, Structural)]
pub struct Color {
    pub r: u8,
    pub g: u8,
    pub b: u8,
    pub a: u8,
}

impl Default for Color {
    /// Opaque white.
    fn default() -> (c: Self)
        ensures
            c == (Color { r: 255, g: 255, b: 255, a: 255 }),
    {
        Color { r: 255, g: 255, b: 255, a: 255 }
    }
}

impl Color {
    /// An opaque color from three channel values in 0..=255.
    pub fn rgb(r: u32, g: u32, b: u32) -> (c: Self)
        requires
            r <= 255,
            g <= 255,
            b <= 255,
        ensures
            c.r == r,
            c.g == g,
            c.b == b,
            c.a == 255,
    {
        Color { r: r as u8, g: g as u8, b: b as u8, a: 255 }
    }

    /// Decodes a hexadecimal color: values up to 0xffffff are read as
    /// 0xRRGGBB with an opaque alpha, larger values as 0xRRGGBBAA.
    pub fn from_hex(hex: u32) -> (c: Self)
        ensures
            hex <= 0xffffff ==> {
                &&& c.r == ((hex >> 16) & 0xff) as u8
                &&& c.g == ((hex >> 8) & 0xff) as u8
                &&& c.b == (hex & 0xff) as u8
                &&& c.a == 255
            },
            hex > 0xffffff ==> {
                &&& c.r == ((hex >> 24) & 0xff) as u8
                &&& c.g == ((hex >> 16) & 0xff) as u8
                &&& c.b == ((hex >> 8) & 0xff) as u8
                &&& c.a == (hex & 0xff) as u8
            },
    {
        if hex <= 0xffffff {
            Color {
                r: ((hex >> 16) & 0xff) as u8,
                g: ((hex >> 8) & 0xff) as u8,
                b: (hex & 0xff) as u8,
                a: 255,
            }
        } else {
            Color {
                r: ((hex >> 24) & 0xff) as u8,
                g: ((hex >> 16) & 0xff) as u8,
                b: ((hex >> 8) & 0xff) as u8,
                a: (hex & 0xff) as u8,
            }
        }
    }

    /// The channels as a fixed-size array, in r, g, b, a order; the safe
    /// form of handing the color to a graphics API as flat numeric data.
    pub fn to_array(&self) -> (arr: [u8; 4])
        ensures
            arr@ == seq![self.r, self.g, self.b, self.a],
    {
        let arr = [self.r, self.g, self.b, self.a];
        proof {
            assert(arr@ =~= seq![self.r, self.g, self.b, self.a]);
        }
        arr
    }
}

} // verus!
