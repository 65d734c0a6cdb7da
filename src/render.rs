use vstd::prelude::*;
use crate::braille::{braille_cell, pixels_to_braille};
use crate::dither::{dither, dither_spec};
use crate::raster::{Raster, RgbImage};
use crate::size::{resolve_size, resolve_spec};

verus! {

/// The glyph of the block whose top-left pixel is `(x, y)`.
pub open spec fn glyph(img: Raster, x: int, y: int) -> char {
    braille_cell(img, x, y)
}

/// Number of glyphs per line: one per two pixel columns, the last block
/// possibly partial.
pub open spec fn text_columns(img: Raster) -> int {
    (img.width + 1) / 2
}

/// Number of lines: one per four pixel rows, the last strip possibly partial.
pub open spec fn text_rows(img: Raster) -> int {
    (img.height + 3) / 4
}

/// The first `n` glyphs of line `row`.
pub open spec fn line_prefix(img: Raster, row: int, n: int) -> Seq<char> {
    Seq::new(n as nat, |c: int| glyph(img, 2 * c, 4 * row))
}

/// The first `n` lines of the text, each ended by a newline.
pub open spec fn lines(img: Raster, n: int) -> Seq<char>
    decreases n,
{
    if n <= 0 {
        seq![]
    } else {
        lines(img, n - 1) + line_prefix(img, n - 1, text_columns(img)).push('\n')
    }
}

/// The whole text of an image.
pub open spec fn braille_text(img: Raster) -> Seq<char> {
    lines(img, text_rows(img))
}

/// The buffers that resizing allocates have lengths that fit `usize`: the
/// intermediate one of `src_w` x `h` pixels with four channels, and the result.
pub open spec fn buffers_fit(src_w: u32, w: int, h: int) -> bool {
    4 * src_w * h <= usize::MAX && 3 * w * h <= usize::MAX
}

/// Relies on image::imageops::resize with FilterType::Lanczos3: an RGB buffer
/// of exactly the new size; zero-filled when the source has no pixels, an
/// unchanged copy when the size is the same. Other bytes are left open: the
/// filter weights come from `f32::sin`, whose precision varies by platform.
/// `ImageBuffer::new` panics when a buffer length overflows `usize`, hence
/// the bounds.
#[verifier::external_body]
fn resize_lanczos3(image: &RgbImage, new_width: u32, new_height: u32) -> (r: RgbImage)
    requires
        image.wf(),
        buffers_fit(image.width, new_width as int, new_height as int),
    ensures
        r.width == new_width,
        r.height == new_height,
        r.wf(),
        image.width == 0 || image.height == 0 ==> forall|i: int|
            0 <= i < r.pixels@.len() ==> r.pixels@[i] == 0,
        image.width == new_width && image.height == new_height ==> r.pixels@ == image.pixels@,
{
    let source = image::RgbImage::from_raw(image.width, image.height, image.pixels.clone()).unwrap();
    let filter = image::imageops::FilterType::Lanczos3;
    let resized = image::imageops::resize(&source, new_width, new_height, filter);
    RgbImage { width: resized.width(), height: resized.height(), pixels: resized.into_raw() }
}

/// The text for a resized image of `w` x `h` pixels `p` once it is dithered.
pub open spec fn dithered_text(w: u32, h: u32, p: Seq<u8>) -> Seq<char> {
    braille_text(Raster { width: w, height: h, pixels: dither_spec(Raster { width: w, height: h, pixels: p }) })
}

/// `p` is a buffer that resizing `img` to `w` x `h` may give: of that size,
/// all zeros when `img` has no pixels, and `img`'s own pixels when the size
/// does not change.
pub open spec fn is_resize_outcome(img: Raster, w: u32, h: u32, p: Seq<u8>) -> bool {
    &&& p.len() == 3 * w * h
    &&& (img.width == 0 || img.height == 0) ==> (forall|i: int| 0 <= i < p.len() ==> p[i] == 0)
    &&& (img.width == w && img.height == h) ==> p == img.pixels
}

/// `t` is the text of `img` resized to the size that `resolve_spec` picks,
/// for some outcome of the resampling, then dithered and rendered.
pub open spec fn is_art_of(
    img: Raster,
    requested: Option<u32>,
    terminal: Option<(usize, usize)>,
    t: Seq<char>,
) -> bool {
    let (w, h) = resolve_spec(img.width, img.height, requested, terminal);
    exists|p: Seq<u8>|
        is_resize_outcome(img, w as u32, h as u32, p) && t == #[trigger] dithered_text(
            w as u32,
            h as u32,
            p,
        )
}

/// Relies on String's FromIterator<char>: the string holds the chars in order.
#[verifier::external_body]
fn string_from_chars(chars: Vec<char>) -> (r: String)
    ensures
        r@ == chars@,
{
    String::from_iter(chars)
}

/// The text of an image: a line per strip of four pixel rows, top to bottom,
/// each holding a Braille cell per block of two pixel columns, left to right,
/// and ended by a newline.
pub fn render_braille(image: &RgbImage) -> (r: String)
    requires
        image.wf(),
    ensures
        r@ == braille_text(image@),
{
    let rows: u32 = image.height / 4 + if image.height % 4 != 0 {
        1
    } else {
        0
    };
    let cols: u32 = image.width / 2 + if image.width % 2 != 0 {
        1
    } else {
        0
    };
    assert(rows == text_rows(image@) && cols == text_columns(image@));
    let mut out: Vec<char> = Vec::new();
    let mut row: u32 = 0;
    while row < rows
        invariant
            image.wf(),
            rows == text_rows(image@),
            cols == text_columns(image@),
            row <= rows,
            out@ == lines(image@, row as int),
        decreases rows - row,
    {
        let mut col: u32 = 0;
        while col < cols
            invariant
                image.wf(),
                rows == text_rows(image@),
                cols == text_columns(image@),
                row < rows,
                col <= cols,
                out@ == lines(image@, row as int) + line_prefix(image@, row as int, col as int),
            decreases cols - col,
        {
            let cell = pixels_to_braille(2 * col, 4 * row, image);
            let c: char = match cell {
                Some(c) => c,
                None => ' ',
            };
            assert(c == glyph(image@, 2 * col as int, 4 * row as int));
            out.push(c);
            assert(line_prefix(image@, row as int, col + 1) =~= line_prefix(
                image@,
                row as int,
                col as int,
            ).push(c));
            col = col + 1;
        }
        out.push('\n');
        row = row + 1;
    }
    string_from_chars(out)
}


/// The whole conversion: resolve the target size, resize, dither, render.
/// `None` when the buffers of that size would not fit in memory's address range.
pub fn braille_art(
    image: &RgbImage,
    requested: Option<u32>,
    terminal: Option<(usize, usize)>,
) -> (r: Option<String>)
    requires
        image.wf(),
    ensures
        r is Some <==> buffers_fit(
            image.width,
            resolve_spec(image.width, image.height, requested, terminal).0,
            resolve_spec(image.width, image.height, requested, terminal).1,
        ),
        r matches Some(s) ==> is_art_of(image@, requested, terminal, s@),
{
    let (w, h) = resolve_size(image.width, image.height, requested, terminal);
    let limit: u128 = usize::MAX as u128;
    let sw: u128 = image.width as u128;
    let tw: u128 = w as u128;
    let th: u128 = h as u128;
    assert(4 * sw * th <= 4 * u32::MAX * u32::MAX && 3 * tw * th <= 3 * u32::MAX * u32::MAX)
        by (nonlinear_arith)
        requires
            sw <= u32::MAX,
            tw <= u32::MAX,
            th <= u32::MAX,
    ;
    if 4 * sw * th > limit || 3 * tw * th > limit {
        return None;
    }
    let resized = resize_lanczos3(image, w, h);
    let ghost p = resized.pixels@;
    let text = dithered_braille(resized);
    proof {
        let rs = resolve_spec(image.width, image.height, requested, terminal);
        assert(rs.0 as u32 == w && rs.1 as u32 == h);
        assert(is_resize_outcome(image@, rs.0 as u32, rs.1 as u32, p));
        assert(text@ == dithered_text(rs.0 as u32, rs.1 as u32, p));
    }
    Some(text)
}

/// The text of an already resized image: dithered, then rendered.
pub fn dithered_braille(resized: RgbImage) -> (r: String)
    requires
        resized.wf(),
    ensures
        r@ == dithered_text(resized.width, resized.height, resized.pixels@),
{
    let mut image = resized;
    dither(&mut image);
    render_braille(&image)
}

} // verus!
