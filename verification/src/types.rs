//! The data the cache trades in: glyph identifiers, rectangles, committed
//! regions, pixel formats, errors, and the two collaborator capabilities.

use vstd::prelude::*;

verus! {

/// The index of the font character to render.
///
/// Glyphs are what actually gets rendered to the screen. A glyph is close to
/// a "rendered character", but the correspondence is provider-defined:
/// ligatures and combining forms may map several characters to one glyph.
/// Equality and hashing are by value; the cache uses the glyph as its key.
#[derive(Copy, Clone, Debug, PartialEq, Eq, Hash, Structural)]
pub struct Glyph(pub u32);

/// An axis-aligned rectangle in a texture's coordinate space, origin at the
/// top left.
#[derive(Copy, Clone, Debug, PartialEq, Eq, Structural)]
pub struct Bounds {
    pub x: i32,
    pub y: i32,
    pub width: u32,
    pub height: u32,
}

/// A glyph together with the region of the texture it was committed to.
///
/// Produced only on successful placement, and never mutated afterwards: a
/// committed region is only ever discarded wholesale by a clear or a texture
/// swap.
#[derive(Copy, Clone, Debug, PartialEq, Eq, Structural)]
pub struct TextureGlyph {
    pub glyph: Glyph,
    pub bounds: Bounds,
}

/// The layout information for a glyph.
///
/// `bounds` is absent when the glyph has no visual extent (whitespace and
/// control characters); such a glyph cannot be placed in the atlas. Bearing
/// and advance values are floating point and live with the rendering layer,
/// outside this crate.
#[derive(Copy, Clone, Debug, PartialEq)]
pub struct Metrics {
    pub bounds: Option<Bounds>,
}

/// An error generated during a cache operation.
#[derive(Copy, Clone, Debug, PartialEq, Eq, Structural)]
pub enum CacheError {
    /// No matter what, the texture is too small to render the glyph, even
    /// when empty. To fix this error, expand the texture; make sure to clear
    /// the cache if the texture data is also invalidated.
    TextureTooSmall,
    /// The cache cannot store the current request without being cleared
    /// first.
    OutOfSpace,
    /// A glyph was passed to a render method but it could not be rendered,
    /// because its metrics report no bounds.
    NonRenderableGlyph(Glyph),
}

impl CacheError {
    /// A short description of the error, suitable for display.
    pub fn message(&self) -> (s: &'static str)
        ensures
            s@ == match *self {
                CacheError::TextureTooSmall => "The texture is too small to render the given input"@,
                CacheError::OutOfSpace => "The cache is out of space, and must be cleared before more rendering"@,
                CacheError::NonRenderableGlyph(_) => "Attempted to render an un-renderable glyph"@,
            },
    {
        match *self {
            CacheError::TextureTooSmall => "The texture is too small to render the given input",
            CacheError::OutOfSpace => "The cache is out of space, and must be cleared before more rendering",
            CacheError::NonRenderableGlyph(_) => "Attempted to render an un-renderable glyph",
        }
    }
}

/// How the pixels of the rasterized font are represented.
#[derive(Copy, Clone, Debug, PartialEq, Eq, Structural)]
pub enum PixelType {
    /// A series of values representing the alpha with no associated color.
    Alpha,
    /// A series of complete color values.
    RGBA,
}

/// Any object that can turn characters into glyphs and rasterize them.
///
/// A provider may be a TTF rasterizer, a bitmap font, or a combination of
/// libraries. A given provider operates at a fixed size: for a variable-size
/// source, pair the font data with a size to form one provider. The cache
/// holds a provider for its whole lifetime and only reads from it, so no
/// behaviour is demanded of implementations here; the cache's contracts
/// state what holds whatever a provider answers.
pub trait FontProvider {
    /// The format of the data generated by this provider.
    fn pixel_type(&self) -> PixelType;

    /// Convert a single character into a glyph.
    fn single_glyph(&self, character: char) -> Glyph;

    /// Convert the string into glyphs, pushing them into the provided
    /// buffer. This is not necessarily the same as running `single_glyph`
    /// over every character of the string.
    fn glyphs(&self, string: &str, glyphs: &mut Vec<Glyph>);

    /// The metrics of a glyph: its optional visual bounds.
    fn metrics(&self, glyph: Glyph) -> Metrics;

    /// Convert a glyph into image bytes, in the format reported by
    /// `pixel_type`.
    fn rasterize(&self, glyph: Glyph) -> Result<Vec<u8>, CacheError>;
}

/// Any object that can store the data for glyphs over time: an image buffer
/// on the CPU, or a buffer on the GPU through any graphics library.
///
/// A texture is a fixed-size two-dimensional pixel store; the cache reads
/// its dimensions once when it takes ownership.
pub trait Texture {
    fn width(&self) -> u32;

    fn height(&self) -> u32;

    /// Write the data for one glyph into the region recorded in `gpu`.
    fn put_rect(&mut self, pixel: PixelType, data: &[u8], gpu: &TextureGlyph);
}

} // verus!
