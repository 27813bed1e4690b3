use vstd::prelude::*;

verus! {

/// An enumeration over supported color types and bit depths
#[derive(Copy, Clone, Debug, Hash, PartialEq, Eq, Structural)]
pub enum ColorType {
    /// Pixel is an index into a color palette
    Palette(u8),
    /// Pixel is grayscale
    L(u8),
    /// Pixel is 8-bit grayscale with an alpha channel
    LA,
    /// Pixel contains 8-bit R, G and B channels
    RGB,
    /// Pixel is 8-bit RGB with an alpha channel
    RGBA,
    /// Pixel is 16-bit luminance with an alpha channel
    LA16,
    /// Pixel is 16-bit RGB.
    RGB16,
    /// Pixel is 16-bit RGBA.
    RGBA16,
    /// Pixel contains 8-bit B, G and R channels
    BGR,
    /// Pixel is 8-bit BGR with an alpha channel
    BGRA,
}

/// The number of bits in one pixel of color type `c`.
pub open spec fn spec_bits_per_pixel(c: ColorType) -> nat {
    match c {
        ColorType::L(n) => n as nat,
        ColorType::Palette(n) => 3 * (n as nat),
        ColorType::LA => 16,
        ColorType::RGB | ColorType::BGR => 24,
        ColorType::RGBA | ColorType::BGRA | ColorType::LA16 => 32,
        ColorType::RGB16 => 48,
        ColorType::RGBA16 => 64,
    }
}

/// The number of channels in one pixel of color type `c`.
pub open spec fn spec_num_components(c: ColorType) -> nat {
    match c {
        ColorType::L(_) => 1,
        ColorType::LA | ColorType::LA16 => 2,
        ColorType::RGB | ColorType::RGB16 | ColorType::Palette(_) | ColorType::BGR => 3,
        ColorType::RGBA | ColorType::RGBA16 | ColorType::BGRA => 4,
    }
}

/// Returns the number of bits contained in a pixel of `ColorType` ```c```
pub fn bits_per_pixel(c: ColorType) -> (bits: usize)
    ensures
        bits == spec_bits_per_pixel(c),
{
    match c {
        ColorType::L(n) => n as usize,
        ColorType::Palette(n) => 3 * n as usize,
        ColorType::LA => 16,
        ColorType::RGB | ColorType::BGR => 24,
        ColorType::RGBA | ColorType::BGRA | ColorType::LA16 => 32,
        ColorType::RGB16 => 48,
        ColorType::RGBA16 => 64,
    }
}

/// Returns the number of color channels that make up this pixel
pub fn num_components(c: ColorType) -> (n: usize)
    ensures
        n == spec_num_components(c),
{
    match c {
        ColorType::L(_) => 1,
        ColorType::LA | ColorType::LA16 => 2,
        ColorType::RGB | ColorType::RGB16 | ColorType::Palette(_) | ColorType::BGR => 3,
        ColorType::RGBA | ColorType::RGBA16 | ColorType::BGRA => 4,
    }
}

/// The number of bits in each channel of a pixel of color type `c`.
spec fn channel_depth(c: ColorType) -> nat {
    match c {
        ColorType::L(n) | ColorType::Palette(n) => n as nat,
        ColorType::LA | ColorType::RGB | ColorType::BGR | ColorType::RGBA | ColorType::BGRA => 8,
        ColorType::LA16 | ColorType::RGB16 | ColorType::RGBA16 => 16,
    }
}

/// Every channel of a pixel has the same depth: the number of bits in a
/// pixel is a whole multiple of its number of channels.
pub proof fn lemma_bits_divide_evenly(c: ColorType)
    ensures
        spec_num_components(c) > 0,
        spec_bits_per_pixel(c) % spec_num_components(c) == 0,
{
    let m = spec_num_components(c) as int;
    let d = channel_depth(c) as int;
    assert(spec_bits_per_pixel(c) == d * m);
    vstd::arithmetic::div_mod::lemma_mod_multiples_basic(d, m);
}

} // verus!
