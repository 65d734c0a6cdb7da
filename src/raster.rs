use vstd::prelude::*;

verus! {

/// The mathematical view of an image: its size and its row-major RGB bytes.
pub struct Raster {
    pub width: u32,
    pub height: u32,
    pub pixels: Seq<u8>,
}

/// An RGB image: `width * height` pixels of three bytes each, row by row.
pub struct RgbImage {
    pub width: u32,
    pub height: u32,
    pub pixels: Vec<u8>,
}

/// Index of the first byte of pixel `(x, y)` in a row-major buffer.
pub open spec fn offset(width: u32, x: int, y: int) -> int {
    3 * (y * width + x)
}

/// Pixel number `k` of a buffer (counted row by row) is pure black or pure white.
pub open spec fn is_black_or_white_at(pixels: Seq<u8>, k: int) -> bool {
    ||| (pixels[3 * k] == 0 && pixels[3 * k + 1] == 0 && pixels[3 * k + 2] == 0)
    ||| (pixels[3 * k] == 255 && pixels[3 * k + 1] == 255 && pixels[3 * k + 2] == 255)
}

impl Raster {
    /// The buffer holds exactly three bytes for every pixel.
    pub open spec fn wf(&self) -> bool {
        self.pixels.len() == 3 * self.width * self.height
    }

    /// Channel `ch` of pixel `(x, y)`.
    pub open spec fn channel(&self, x: int, y: int, ch: int) -> u8 {
        self.pixels[offset(self.width, x, y) + ch]
    }

    pub open spec fn in_bounds(&self, x: int, y: int) -> bool {
        0 <= x < self.width && 0 <= y < self.height
    }

    /// Every pixel is pure black or pure white.
    pub open spec fn is_two_tone(&self) -> bool {
        forall|k: int|
            0 <= k < self.width * self.height ==> #[trigger] is_black_or_white_at(self.pixels, k)
    }
}

impl View for RgbImage {
    type V = Raster;

    open spec fn view(&self) -> Raster {
        Raster { width: self.width, height: self.height, pixels: self.pixels@ }
    }
}

impl RgbImage {
    pub open spec fn wf(&self) -> bool {
        self@.wf()
    }

    /// An image over a raw buffer; `None` unless the buffer holds exactly
    /// three bytes per pixel.
    pub fn from_raw(width: u32, height: u32, pixels: Vec<u8>) -> (r: Option<RgbImage>)
        ensures
            r is Some <==> pixels@.len() == 3 * width * height,
            r matches Some(img) ==> img.width == width && img.height == height && img.pixels
                == pixels && img.wf(),
    {
        let n: u128 = pixels.len() as u128;
        let w: u128 = width as u128;
        let h: u128 = height as u128;
        assert(3 * w * h <= 3 * u32::MAX * u32::MAX) by (nonlinear_arith)
            requires
                w <= u32::MAX,
                h <= u32::MAX,
        ;
        if n == 3 * w * h {
            Some(RgbImage { width, height, pixels })
        } else {
            None
        }
    }

    /// The three channels of pixel `(x, y)`.
    pub fn get_pixel(&self, x: u32, y: u32) -> (r: [u8; 3])
        requires
            self.wf(),
            x < self.width,
            y < self.height,
        ensures
            r[0] == self@.channel(x as int, y as int, 0),
            r[1] == self@.channel(x as int, y as int, 1),
            r[2] == self@.channel(x as int, y as int, 2),
    {
        proof {
            lemma_offset_in_buffer(self.width, self.height, x as int, y as int);
        }
        let _len: usize = self.pixels.len();
        let o: usize = 3 * (y as usize * self.width as usize + x as usize);
        [self.pixels[o], self.pixels[o + 1], self.pixels[o + 2]]
    }
}

/// The three bytes of an in-bounds pixel lie inside the buffer.
pub proof fn lemma_offset_in_buffer(width: u32, height: u32, x: int, y: int)
    requires
        0 <= x < width,
        0 <= y < height,
    ensures
        0 <= y * width + x < width * height,
        0 <= offset(width, x, y),
        offset(width, x, y) + 3 <= 3 * width * height,
{
    assert(y * width + x + 1 <= width * height) by (nonlinear_arith)
        requires
            0 <= x < width,
            0 <= y < height,
    ;
    assert(0 <= y * width) by (nonlinear_arith)
        requires
            0 <= y,
            0 <= width,
    ;
    assert(3 * (y * width + x + 1) <= 3 * width * height) by (nonlinear_arith)
        requires
            y * width + x + 1 <= width * height,
    ;
}

} // verus!
