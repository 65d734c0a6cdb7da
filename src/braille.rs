use vstd::prelude::*;
use vstd::arithmetic::power2::{pow2, lemma2_to64};
use vstd::utf8::char_u32_cast;
use vstd::bits::{lemma_u32_shl_is_mul, lemma_u32_pow2_no_overflow};
use crate::raster::{Raster, RgbImage};

verus! {

/// Code point of the blank Braille cell; a cell adds its dot bits to it.
pub const BRAILLE_BASE: u32 = 0x2800;

/// Bit of the dot at column `i` (0 or 1) and row `j` (0 to 3) of a cell:
/// rows 0 to 2 of column `i` are bits `3 i` to `3 i + 2`, row 3 is bit `6 + i`.
pub open spec fn dot_bit(i: int, j: int) -> int {
    if j < 3 {
        3 * i + j
    } else {
        6 + i
    }
}

/// The pixel lies in the image and the mean of its channels is above 128.
pub open spec fn is_lit(img: Raster, x: int, y: int) -> bool {
    &&& img.in_bounds(x, y)
    &&& (img.channel(x, y, 0) + img.channel(x, y, 1) + img.channel(x, y, 2)) / 3 > 128
}

/// Sum of the bits of the first `n` dots of the block at `(x, y)` that are lit,
/// dot `k` standing at column `k / 4` and row `k % 4`.
pub open spec fn block_bits(img: Raster, x: int, y: int, n: int) -> int
    decreases n,
{
    if n <= 0 {
        0
    } else {
        let k = n - 1;
        block_bits(img, x, y, k) + if is_lit(img, x + k / 4, y + k % 4) {
            pow2(dot_bit(k / 4, k % 4) as nat) as int
        } else {
            0
        }
    }
}

/// Sum of the bits of the first `n` dots, all lit.
pub open spec fn all_bits(n: int) -> int
    decreases n,
{
    if n <= 0 {
        0
    } else {
        let k = n - 1;
        all_bits(k) + pow2(dot_bit(k / 4, k % 4) as nat) as int
    }
}

/// Code point of the Braille cell for the block whose top-left pixel is `(x, y)`.
pub open spec fn block_code(img: Raster, x: int, y: int) -> int {
    BRAILLE_BASE + block_bits(img, x, y, 8)
}

/// The Braille cell of the block at `(x, y)`.
pub open spec fn braille_cell(img: Raster, x: int, y: int) -> char {
    (block_code(img, x, y) as u32) as char
}

/// The eight dot bits are the distinct bits 0 to 7: all lit, they sum to 255.
pub proof fn lemma_all_bits_values()
    ensures
        all_bits(0) == 0,
        all_bits(1) == 1,
        all_bits(2) == 3,
        all_bits(3) == 7,
        all_bits(4) == 71,
        all_bits(5) == 79,
        all_bits(6) == 95,
        all_bits(7) == 127,
        all_bits(8) == 255,
{
    lemma2_to64();
    reveal_with_fuel(all_bits, 9);
}

/// A block whose eight pixels are all lit is the full cell U+28FF.
pub proof fn lemma_lit_block_is_full_cell(img: Raster, x: int, y: int)
    requires
        forall|i: int, j: int| 0 <= i < 2 && 0 <= j < 4 ==> #[trigger] is_lit(img, x + i, y + j),
    ensures
        block_code(img, x, y) == 0x28FF,
{
    lemma2_to64();
    reveal_with_fuel(block_bits, 9);
    assert(is_lit(img, x + 0, y + 0));
    assert(is_lit(img, x + 0, y + 1));
    assert(is_lit(img, x + 0, y + 2));
    assert(is_lit(img, x + 0, y + 3));
    assert(is_lit(img, x + 1, y + 0));
    assert(is_lit(img, x + 1, y + 1));
    assert(is_lit(img, x + 1, y + 2));
    assert(is_lit(img, x + 1, y + 3));
}

/// A block with no lit pixel is the blank cell U+2800.
pub proof fn lemma_dark_block_is_blank_cell(img: Raster, x: int, y: int)
    requires
        forall|i: int, j: int| 0 <= i < 2 && 0 <= j < 4 ==> !#[trigger] is_lit(img, x + i, y + j),
    ensures
        block_code(img, x, y) == 0x2800,
{
    reveal_with_fuel(block_bits, 9);
    assert(!is_lit(img, x + 0, y + 0));
    assert(!is_lit(img, x + 0, y + 1));
    assert(!is_lit(img, x + 0, y + 2));
    assert(!is_lit(img, x + 0, y + 3));
    assert(!is_lit(img, x + 1, y + 0));
    assert(!is_lit(img, x + 1, y + 1));
    assert(!is_lit(img, x + 1, y + 2));
    assert(!is_lit(img, x + 1, y + 3));
}

/// Relies on char::from_u32: `Some` exactly for Unicode scalar values, holding
/// that value.
pub assume_specification[ char::from_u32 ](i: u32) -> (r: Option<char>)
    ensures
        r is Some <==> (i <= 0x10FFFF && !(0xD800 <= i <= 0xDFFF)),
        r matches Some(c) ==> c as u32 == i,
;

/// The Braille cell of the 2x4 block whose top-left pixel is `(x, y)`.
/// A pixel outside the image counts as dark.
pub fn pixels_to_braille(x: u32, y: u32, image: &RgbImage) -> (r: Option<char>)
    requires
        image.wf(),
    ensures
        r == Some(braille_cell(image@, x as int, y as int)),
        r matches Some(c) ==> c as u32 == block_code(image@, x as int, y as int),
{
    let mut addon: u32 = 0;
    let mut k: u32 = 0;
    proof {
        lemma_all_bits_values();
    }
    while k < 8
        invariant
            k <= 8,
            image.wf(),
            addon == block_bits(image@, x as int, y as int, k as int),
            addon <= all_bits(k as int),
            all_bits(8) == 255,
            all_bits(7) == 127,
            all_bits(6) == 95,
            all_bits(5) == 79,
            all_bits(4) == 71,
            all_bits(3) == 7,
            all_bits(2) == 3,
            all_bits(1) == 1,
        decreases 8 - k,
    {
        let i: u32 = k / 4;
        let j: u32 = k % 4;
        let bit: u32 = if j < 3 {
            3 * i + j
        } else {
            6 + i
        };
        proof {
            lemma_u32_pow2_no_overflow(bit as nat);
            lemma_u32_shl_is_mul(1, bit);
        }
        let weight: u32 = 1u32 << bit;
        if (x as u64) + (i as u64) < image.width as u64 && (y as u64) + (j as u64)
            < image.height as u64 {
            let px = image.get_pixel(x + i, y + j);
            if (px[0] as u16 + px[1] as u16 + px[2] as u16) / 3 > 128 {
                addon = addon + weight;
            }
        }
        k = k + 1;
    }
    let code: u32 = BRAILLE_BASE + addon;
    let r = char::from_u32(code);
    proof {
        if let Some(c) = r {
            char_u32_cast(c, code);
        }
    }
    r
}

} // verus!
