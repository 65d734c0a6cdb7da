//! Renders a raster image as text made of Unicode Braille cells: the target
//! size is resolved from the source's aspect ratio, the resized image is
//! dithered to black and white, and every 2x4 block becomes one glyph.
use vstd::prelude::*;

pub mod braille;
pub mod color;
pub mod dither;
pub mod raster;
pub mod render;
pub mod size;

verus! {

/// `image`'s RGB pixel: three channels in a public array.
#[verifier::external_type_specification]
#[verifier::reject_recursive_types(T)]
pub struct ExRgb<T>(image::Rgb<T>);

} // verus!
