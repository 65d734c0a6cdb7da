use vstd::prelude::*;

verus! {

/// Pure black, the palette entry of index 0.
pub const BLACK: [u8; 3] = [0u8, 0u8, 0u8];

/// Pure white, the palette entry of index 1.
pub const WHITE: [u8; 3] = [255u8, 255u8, 255u8];

/// BT.709 luminance scaled by 10000, so that it is an exact integer:
/// 0.2126 R + 0.7152 G + 0.0722 B == luma_of(r, g, b) / 10000.
pub open spec fn luma_of(r: u8, g: u8, b: u8) -> int {
    2126 * r + 7152 * g + 722 * b
}

/// The scaled luminance of a color.
pub open spec fn luma_scaled(c: [u8; 3]) -> int {
    luma_of(c[0], c[1], c[2])
}

/// The byte that every channel of a color becomes once it is mapped.
pub open spec fn mapped_channel(r: u8, g: u8, b: u8) -> u8 {
    if luma_of(r, g, b) < 1280000 {
        0
    } else {
        255
    }
}

/// The luminance is strictly below 128.
pub open spec fn is_dark(c: [u8; 3]) -> bool {
    luma_scaled(c) < 1280000
}

/// The palette index that a color is classified as.
pub open spec fn index_spec(c: [u8; 3]) -> usize {
    if is_dark(c) { 0 } else { 1 }
}

/// The palette entry of an index.
pub open spec fn palette(i: usize) -> [u8; 3] {
    if i == 0 { BLACK } else { WHITE }
}

/// The color is one of the two palette entries.
pub open spec fn is_black_or_white(c: [u8; 3]) -> bool {
    c == BLACK || c == WHITE
}

/// The two-color map: classifies a color by its luminance and maps it to
/// black or white.
pub struct CustomColorMap;

impl CustomColorMap {
    /// 0 when the BT.709 luminance is below 128, else 1.
    pub fn index_of(&self, color: &[u8; 3]) -> (r: usize)
        ensures
            r == index_spec(*color),
            r == 0 <==> is_dark(*color),
    {
        let luma: u32 = 2126u32 * color[0] as u32 + 7152u32 * color[1] as u32 + 722u32
            * color[2] as u32;
        if luma < 1280000u32 {
            0
        } else {
            1
        }
    }

    /// Replaces the color by the palette entry of its index.
    pub fn map_color(&self, color: &mut [u8; 3])
        ensures
            *final(color) == palette(index_spec(*old(color))),
            is_black_or_white(*final(color)),
            final(color)[0] == mapped_channel(old(color)[0], old(color)[1], old(color)[2]),
            final(color)[1] == mapped_channel(old(color)[0], old(color)[1], old(color)[2]),
            final(color)[2] == mapped_channel(old(color)[0], old(color)[1], old(color)[2]),
    {
        let index = self.index_of(color);
        if index == 0 {
            *color = BLACK;
        } else {
            *color = WHITE;
        }
    }
}

/// The color map that `image`'s dithering applies to each pixel.
impl image::imageops::ColorMap for CustomColorMap {
    type Color = image::Rgb<u8>;

    fn index_of(&self, color: &image::Rgb<u8>) -> usize {
        CustomColorMap::index_of(self, &color.0)
    }

    fn map_color(&self, color: &mut image::Rgb<u8>) {
        CustomColorMap::map_color(self, &mut color.0)
    }
}

/// Mapping a color fixes its class: a mapped color maps to itself.
pub proof fn lemma_map_is_stable(c: [u8; 3])
    ensures
        index_spec(palette(index_spec(c))) == index_spec(c),
        palette(index_spec(palette(index_spec(c)))) == palette(index_spec(c)),
{
}

} // verus!
