//! A packed 32-bit RGBA color. The channel order is red/green/blue/alpha from
//! the most significant byte down; channel accessors are bit-exact inverses of
//! the constructor.

use vstd::prelude::*;

verus! {

#[derive(Copy, Clone, Debug, PartialEq, Eq, Structural)]
pub struct Color {
    /// Packed channels: red in the top byte, then green, blue, alpha.
    pub rgba: u32,
}

/// The packed form `from_rgb` builds: fully opaque, alpha = 0xFF.
pub open spec fn spec_pack_rgb(red: u8, green: u8, blue: u8) -> u32 {
    ((red as u32) << 24) | ((green as u32) << 16) | ((blue as u32) << 8) | 0xFF
}

impl Color {
    /// The red channel, as stored in the top byte.
    pub open spec fn spec_red(self) -> u8 {
        (self.rgba >> 24) as u8
    }

    /// The green channel.
    pub open spec fn spec_green(self) -> u8 {
        (self.rgba >> 16) as u8
    }

    /// The blue channel.
    pub open spec fn spec_blue(self) -> u8 {
        (self.rgba >> 8) as u8
    }

    /// The alpha channel, in the lowest byte.
    pub open spec fn spec_alpha(self) -> u8 {
        self.rgba as u8
    }

    pub fn red(&self) -> (r: u8)
        ensures
            r == self.spec_red(),
    {
        (self.rgba >> (8 * 3)) as u8
    }

    pub fn green(&self) -> (r: u8)
        ensures
            r == self.spec_green(),
    {
        (self.rgba >> (8 * 2)) as u8
    }

    pub fn blue(&self) -> (r: u8)
        ensures
            r == self.spec_blue(),
    {
        (self.rgba >> (8 * 1)) as u8
    }

    pub fn alpha(&self) -> (r: u8)
        ensures
            r == self.spec_alpha(),
    {
        proof {
            let x = self.rgba;
            assert((x >> (8 * 0)) as u8 == x as u8) by (bit_vector);
        }
        (self.rgba >> (8 * 0)) as u8
    }

    pub fn to_rgb(&self) -> (r: (u8, u8, u8))
        ensures
            r == (self.spec_red(), self.spec_green(), self.spec_blue()),
    {
        (self.red(), self.green(), self.blue())
    }

    /// Packs three channels into a fully opaque color.
    pub fn from_rgb(red: u8, green: u8, blue: u8) -> (c: Self)
        ensures
            c.rgba == spec_pack_rgb(red, green, blue),
            c.spec_red() == red,
            c.spec_green() == green,
            c.spec_blue() == blue,
            c.spec_alpha() == 0xFF,
    {
        let rgba = ((red as u32) << (8 * 3)) | ((green as u32) << (8 * 2)) | ((blue as u32) << (8
            * 1)) | 0xFF;
        proof {
            lemma_pack_rgb_channels(red, green, blue);
        }
        Color { rgba }
    }
}

/// Unpacking a packed color returns the channels that went in, and packed
/// colors are always fully opaque.
pub proof fn lemma_pack_rgb_channels(red: u8, green: u8, blue: u8)
    ensures
        (Color { rgba: spec_pack_rgb(red, green, blue) }).spec_red() == red,
        (Color { rgba: spec_pack_rgb(red, green, blue) }).spec_green() == green,
        (Color { rgba: spec_pack_rgb(red, green, blue) }).spec_blue() == blue,
        (Color { rgba: spec_pack_rgb(red, green, blue) }).spec_alpha() == 0xFF,
{
    assert(((((red as u32) << 24) | ((green as u32) << 16) | ((blue as u32) << 8) | 0xFF) >> 24)
        as u8 == red) by (bit_vector);
    assert(((((red as u32) << 24) | ((green as u32) << 16) | ((blue as u32) << 8) | 0xFF) >> 16)
        as u8 == green) by (bit_vector);
    assert(((((red as u32) << 24) | ((green as u32) << 16) | ((blue as u32) << 8) | 0xFF) >> 8)
        as u8 == blue) by (bit_vector);
    assert(((((red as u32) << 24) | ((green as u32) << 16) | ((blue as u32) << 8) | 0xFF)) as u8
        == 0xFF) by (bit_vector);
}

/// A small palette of the named colors the stock components draw with.
impl Color {
    pub fn black() -> (c: Color)
        ensures
            c.rgba == 0x000000FF,
    {
        Color { rgba: 0x000000FF }
    }

    pub fn white() -> (c: Color)
        ensures
            c.rgba == 0xFFFFFFFF,
    {
        Color { rgba: 0xFFFFFFFF }
    }

    pub fn gray() -> (c: Color)
        ensures
            c.rgba == 0x808080FF,
    {
        Color { rgba: 0x808080FF }
    }

    pub fn light_gray() -> (c: Color)
        ensures
            c.rgba == 0xD3D3D3FF,
    {
        Color { rgba: 0xD3D3D3FF }
    }

    pub fn dark_gray() -> (c: Color)
        ensures
            c.rgba == 0xA9A9A9FF,
    {
        Color { rgba: 0xA9A9A9FF }
    }

    pub fn aqua() -> (c: Color)
        ensures
            c.rgba == 0x00FFFFFF,
    {
        Color { rgba: 0x00FFFFFF }
    }

    pub fn beige() -> (c: Color)
        ensures
            c.rgba == 0xF5F5DCFF,
    {
        Color { rgba: 0xF5F5DCFF }
    }

    pub fn gold() -> (c: Color)
        ensures
            c.rgba == 0xFFD700FF,
    {
        Color { rgba: 0xFFD700FF }
    }
}

} // verus!
