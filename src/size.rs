use vstd::prelude::*;

verus! {

/// Width in pixels used when neither a width nor a terminal decides: 120 columns.
pub const DEFAULT_WIDTH: u32 = 240;

/// What the target width is taken from.
#[derive(Debug, Clone, Copy, PartialEq, Eq, Structural)]
pub enum SizeSource {
    /// An explicit request, already in pixels (two per column).
    Explicit(u32),
    /// A terminal's pixel width and pixel height (one text row kept free).
    TerminalFit(u32, u32),
    /// Neither: the default width.
    Default,
}

/// Chooses the source of the width: an explicit request first, then a usable
/// terminal. A request or terminal whose pixel size does not fit `u32`, and a
/// terminal with no row left once one is kept free, fall back to the default.
pub open spec fn source_spec(requested: Option<u32>, terminal: Option<(usize, usize)>) -> SizeSource {
    match requested {
        Some(n) => if 2 * n <= u32::MAX {
            SizeSource::Explicit((2 * n) as u32)
        } else {
            SizeSource::Default
        },
        None => match terminal {
            None => SizeSource::Default,
            Some((cols, rows)) => if rows >= 2 && 2 * cols <= u32::MAX && 4 * (rows - 1)
                <= u32::MAX {
                SizeSource::TerminalFit((2 * cols) as u32, (4 * (rows - 1)) as u32)
            } else {
                SizeSource::Default
            },
        },
    }
}

/// `v * num / den` truncated toward zero and saturated at `u32::MAX`, as a
/// float-to-integer cast does; 0 when `den` is 0.
pub open spec fn trunc_scale(v: int, num: int, den: int) -> int {
    if den == 0 {
        0
    } else if v * num / den > u32::MAX {
        u32::MAX as int
    } else {
        v * num / den
    }
}

/// Height that keeps the aspect ratio `src_h / src_w` at the given width.
pub open spec fn height_for(src_w: u32, src_h: u32, width: int) -> int {
    trunc_scale(width, src_h as int, src_w as int)
}

/// Width at which the image fills the given pixel height; the default width
/// when the aspect ratio is 0.
pub open spec fn width_for_height(src_w: u32, src_h: u32, height: int) -> int {
    if src_w == 0 || src_h == 0 {
        DEFAULT_WIDTH as int
    } else {
        trunc_scale(height, src_w as int, src_h as int)
    }
}

/// Target width in pixels.
pub open spec fn target_width(src_w: u32, src_h: u32, source: SizeSource) -> int {
    match source {
        SizeSource::Explicit(w) => w as int,
        SizeSource::TerminalFit(tw, th) => {
            let fit = width_for_height(src_w, src_h, th as int);
            if tw < fit {
                tw as int
            } else {
                fit
            }
        },
        SizeSource::Default => DEFAULT_WIDTH as int,
    }
}

/// Target `(width, height)` in pixels.
pub open spec fn resolve_spec(
    src_w: u32,
    src_h: u32,
    requested: Option<u32>,
    terminal: Option<(usize, usize)>,
) -> (int, int) {
    let w = target_width(src_w, src_h, source_spec(requested, terminal));
    (w, height_for(src_w, src_h, w))
}

/// A resolved size is never negative.
pub proof fn lemma_resolved_size_nonnegative(
    src_w: u32,
    src_h: u32,
    requested: Option<u32>,
    terminal: Option<(usize, usize)>,
)
    ensures
        resolve_spec(src_w, src_h, requested, terminal).0 >= 0,
        resolve_spec(src_w, src_h, requested, terminal).1 >= 0,
{
    let w = target_width(src_w, src_h, source_spec(requested, terminal));
    if let SizeSource::TerminalFit(tw, th) = source_spec(requested, terminal) {
        if src_w != 0 && src_h != 0 {
            assert(th as int * src_w as int / src_h as int >= 0) by (nonlinear_arith)
                requires
                    th >= 0,
                    src_w > 0,
                    src_h > 0,
            ;
        }
    }
    if src_w != 0 {
        assert(w * src_h as int / src_w as int >= 0) by (nonlinear_arith)
            requires
                w >= 0,
                src_w > 0,
                src_h >= 0,
        ;
    }
}

/// With a source of non-zero width the resolved size is not `(0, 0)`,
/// provided no zero is asked for: no request of zero columns, and, where the
/// terminal decides the width, one with columns and with room below its kept
/// row for at least one pixel row of the image.
pub proof fn lemma_resolved_size_nonzero(
    src_w: u32,
    src_h: u32,
    requested: Option<u32>,
    terminal: Option<(usize, usize)>,
)
    requires
        src_w > 0,
        requested != Some(0u32),
        terminal matches Some((cols, rows)) ==> (source_spec(requested, terminal) is TerminalFit
            ==> cols > 0 && 4 * (rows - 1) * src_w >= src_h),
    ensures
        resolve_spec(src_w, src_h, requested, terminal) != (0int, 0int),
        resolve_spec(src_w, src_h, requested, terminal).0 > 0,
{
    if let SizeSource::TerminalFit(tw, th) = source_spec(requested, terminal) {
        if src_h != 0 {
            assert(th as int * src_w as int / src_h as int >= 1) by (nonlinear_arith)
                requires
                    th as int * src_w as int >= src_h,
                    src_h > 0,
            ;
        }
    }
}

/// Without a width request and without a terminal, the width is the default
/// 240 pixels and the height is `240 * src_h / src_w`, truncated, wherever
/// that fits `u32` (beyond it the height saturates, as a float cast does).
pub proof fn lemma_default_width_without_terminal(src_w: u32, src_h: u32)
    requires
        src_w > 0,
        240 * (src_h as int) / (src_w as int) <= u32::MAX,
    ensures
        resolve_spec(src_w, src_h, None, None) == (240int, 240 * (src_h as int) / (src_w as int)),
{
}

/// Which of the explicit request, the terminal and the default sets the width.
pub fn size_source(requested: Option<u32>, terminal: Option<(usize, usize)>) -> (r: SizeSource)
    ensures
        r == source_spec(requested, terminal),
{
    match requested {
        Some(n) => match n.checked_mul(2) {
            Some(w) => SizeSource::Explicit(w),
            None => SizeSource::Default,
        },
        None => match terminal {
            None => SizeSource::Default,
            Some((cols, rows)) => {
                if rows < 2 || cols > (u32::MAX / 2) as usize || rows - 1 > (u32::MAX / 4) as usize {
                    SizeSource::Default
                } else {
                    SizeSource::TerminalFit((2 * cols) as u32, (4 * (rows - 1)) as u32)
                }
            },
        },
    }
}

/// `v * num / den`, truncated and saturated as `trunc_scale` says.
fn scale(v: u32, num: u32, den: u32) -> (r: u32)
    ensures
        r == trunc_scale(v as int, num as int, den as int),
{
    if den == 0 {
        return 0;
    }
    assert(v as int * num as int <= u32::MAX as int * u32::MAX as int) by (nonlinear_arith)
        requires
            0 <= v <= u32::MAX,
            0 <= num <= u32::MAX,
    ;
    let p: u64 = v as u64 * num as u64;
    let q: u64 = p / den as u64;
    if q > u32::MAX as u64 {
        u32::MAX
    } else {
        q as u32
    }
}

/// Target size in pixels for a `src_w` x `src_h` source: the width comes from
/// `size_source`, and the height keeps the aspect ratio, truncated.
pub fn resolve_size(
    src_w: u32,
    src_h: u32,
    requested: Option<u32>,
    terminal: Option<(usize, usize)>,
) -> (r: (u32, u32))
    ensures
        (r.0 as int, r.1 as int) == resolve_spec(src_w, src_h, requested, terminal),
{
    let width: u32 = match size_source(requested, terminal) {
        SizeSource::Explicit(w) => w,
        SizeSource::TerminalFit(tw, th) => {
            let fit: u32 = if src_w == 0 || src_h == 0 {
                DEFAULT_WIDTH
            } else {
                scale(th, src_w, src_h)
            };
            if tw < fit {
                tw
            } else {
                fit
            }
        },
        SizeSource::Default => DEFAULT_WIDTH,
    };
    (width, scale(width, src_h, src_w))
}

} // verus!
