use vstd::prelude::*;
use crate::color::{CustomColorMap, mapped_channel};
use crate::raster::{Raster, RgbImage, is_black_or_white_at};

verus! {

/// What `image`'s Floyd-Steinberg dithering with `CustomColorMap` makes of a
/// row-major RGB buffer of the given size.
pub uninterp spec fn floyd_steinberg_of(pixels: Seq<u8>, width: u32, height: u32) -> Seq<u8>;

/// Relies on image::imageops::colorops::dither with `CustomColorMap`: it keeps
/// the size, and visits the pixels row by row, replacing each one once by
/// `map_color` of its value (plus the error diffused so far) and diffusing
/// error only into pixels it has not visited yet; so every pixel ends black
/// or white. It reaches for a right-hand neighbour on the first column and
/// subtracts one from the height, hence the bounds.
#[verifier::external_body]
fn dither_buffer(image: &mut RgbImage)
    requires
        old(image).wf(),
        old(image).width >= 2,
        old(image).height >= 1,
    ensures
        final(image).width == old(image).width,
        final(image).height == old(image).height,
        final(image).pixels@ == floyd_steinberg_of(
            old(image).pixels@,
            old(image).width,
            old(image).height,
        ),
        final(image)@.wf(),
        final(image)@.is_two_tone(),
{
    let pixels = std::mem::take(&mut image.pixels);
    let mut buffer = image::RgbImage::from_raw(image.width, image.height, pixels).unwrap();
    image::imageops::colorops::dither(&mut buffer, &CustomColorMap);
    image.pixels = buffer.into_raw();
}

/// Each pixel of a buffer replaced by its palette color, with no diffusion.
pub open spec fn thresholded(pixels: Seq<u8>) -> Seq<u8> {
    Seq::new(
        pixels.len(),
        |i: int|
            mapped_channel(pixels[3 * (i / 3)], pixels[3 * (i / 3) + 1], pixels[3 * (i / 3) + 2]),
    )
}

/// The dithered buffer of an image: error diffusion where the image is at
/// least two pixels wide and one high, plain thresholding otherwise.
pub open spec fn dither_spec(img: Raster) -> Seq<u8> {
    if img.width >= 2 && img.height >= 1 {
        floyd_steinberg_of(img.pixels, img.width, img.height)
    } else {
        thresholded(img.pixels)
    }
}

/// Reduces the image to black and white in place.
pub fn dither(image: &mut RgbImage)
    requires
        old(image).wf(),
    ensures
        final(image).width == old(image).width,
        final(image).height == old(image).height,
        final(image).pixels@ == dither_spec(old(image)@),
        final(image).wf(),
        final(image)@.is_two_tone(),
{
    if image.width >= 2 && image.height >= 1 {
        dither_buffer(image);
        return ;
    }
    let ghost before = image.pixels@;
    let len: usize = image.pixels.len();
    let n: usize = len / 3;
    proof {
        let m = image.width * image.height;
        assert(3 * image.width * image.height == 3 * m) by (nonlinear_arith)
            requires
                m == image.width * image.height,
        ;
        assert((3 * m) / 3 == m);
    }
    let map = CustomColorMap;
    let mut k: usize = 0;
    while k < n
        invariant
            k <= n,
            image.width == old(image).width,
            image.height == old(image).height,
            before == old(image).pixels@,
            before.len() == 3 * n,
            3 * n <= usize::MAX,
            n == image.width * image.height,
            image.pixels@.len() == before.len(),
            forall|i: int| 0 <= i < 3 * k ==> image.pixels@[i] == #[trigger] thresholded(before)[i],
            forall|i: int| 3 * k <= i < 3 * n ==> image.pixels@[i] == before[i],
        decreases n - k,
    {
        let mut c: [u8; 3] = [image.pixels[3 * k], image.pixels[3 * k + 1], image.pixels[3 * k + 2]];
        map.map_color(&mut c);
        image.pixels.set(3 * k, c[0]);
        image.pixels.set(3 * k + 1, c[1]);
        image.pixels.set(3 * k + 2, c[2]);
        assert((3 * k + 1) / 3 == k as int && (3 * k + 2) / 3 == k as int && (3 * k) / 3 == k as int);
        k = k + 1;
    }
    assert(image.pixels@ =~= thresholded(before));
    assert forall|q: int| 0 <= q < n implies #[trigger] is_black_or_white_at(image.pixels@, q) by {
        assert((3 * q + 1) / 3 == q && (3 * q + 2) / 3 == q && (3 * q) / 3 == q);
    }
}

} // verus!
