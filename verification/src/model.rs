//! The mathematical model of the atlas packer.
//!
//! An [`AtlasModel`] abstracts the packer's state: the committed regions,
//! the two packing cursors, the height of the active shelf, and the texture
//! dimensions. The spec functions here say exactly where the shelf
//! algorithm places a glyph of given size, when it refuses, and what the
//! next state is; the executable packer's contracts are stated over them,
//! and the laws of the cache are proved about them.

use crate::types::Bounds;
use crate::types::CacheError;
use crate::types::Glyph;
use crate::types::TextureGlyph;
use vstd::prelude::*;

verus! {

/// The state of an atlas packer, seen mathematically.
#[verifier::ext_equal]
pub struct AtlasModel {
    /// One committed region per cached glyph.
    pub entries: Map<Glyph, TextureGlyph>,
    /// Horizontal cursor: the next free slot on the active shelf starts here.
    pub h_cursor: u32,
    /// Vertical cursor: the top of the active shelf.
    pub v_cursor: u32,
    /// Height of the tallest glyph placed on the active shelf.
    pub current_line_height: u32,
    /// Fixed texture width.
    pub width: u32,
    /// Fixed texture height.
    pub height: u32,
}

/// `b` lies entirely inside a texture of the given dimensions.
pub open spec fn contained(b: Bounds, width: u32, height: u32) -> bool {
    &&& 0 <= b.x
    &&& 0 <= b.y
    &&& b.x + b.width <= width
    &&& b.y + b.height <= height
}

/// The two rectangles share no pixel.
pub open spec fn disjoint(a: Bounds, b: Bounds) -> bool {
    ||| a.x + a.width <= b.x
    ||| b.x + b.width <= a.x
    ||| a.y + a.height <= b.y
    ||| b.y + b.height <= a.y
}

/// Every committed region lies at the frontier or behind it: either wholly
/// above the active shelf, or on the active shelf, left of the horizontal
/// cursor and no taller than the shelf. This is what makes the slot at the
/// cursor free.
pub open spec fn behind_frontier(m: AtlasModel, b: Bounds) -> bool {
    ||| b.y + b.height < m.v_cursor
    ||| (b.y == m.v_cursor && b.x + b.width < m.h_cursor && b.height <= m.current_line_height)
}

/// The packer's invariant: dimensions fit the coordinate type, cursors are
/// in range, and every committed region is keyed consistently, contained in
/// the texture, behind the packing frontier, and disjoint from every other.
pub open spec fn atlas_inv(m: AtlasModel) -> bool {
    &&& m.width <= i32::MAX
    &&& m.height <= i32::MAX
    &&& m.h_cursor <= m.width + 1
    &&& m.v_cursor + m.current_line_height <= m.height
    &&& forall|g: Glyph| m.entries.dom().contains(g) ==> (#[trigger] m.entries[g]).glyph == g
    &&& forall|g: Glyph|
        m.entries.dom().contains(g) ==> contained(
            (#[trigger] m.entries[g]).bounds,
            m.width,
            m.height,
        )
    &&& forall|g: Glyph|
        m.entries.dom().contains(g) ==> behind_frontier(m, (#[trigger] m.entries[g]).bounds)
    &&& forall|g1: Glyph, g2: Glyph|
        m.entries.dom().contains(g1) && m.entries.dom().contains(g2) && g1 != g2 ==> disjoint(
            (#[trigger] m.entries[g1]).bounds,
            (#[trigger] m.entries[g2]).bounds,
        )
}

/// The glyph is intrinsically too large: no state of a texture of these
/// dimensions can ever hold it.
pub open spec fn oversized(m: AtlasModel, w: u32, h: u32) -> bool {
    w > m.width || h > m.height
}

/// A glyph of width `w` does not fit on the remainder of the active shelf,
/// so placing it would open a new shelf.
pub open spec fn wraps(m: AtlasModel, w: u32) -> bool {
    m.h_cursor + w > m.width
}

/// The horizontal coordinate at which a glyph of width `w` would be placed.
pub open spec fn slot_x(m: AtlasModel, w: u32) -> int {
    if wraps(m, w) {
        0
    } else {
        m.h_cursor as int
    }
}

/// The vertical coordinate at which a glyph of width `w` would be placed:
/// the active shelf, or one row of padding below it after a wrap.
pub open spec fn slot_y(m: AtlasModel, w: u32) -> int {
    if wraps(m, w) {
        m.v_cursor + m.current_line_height + 1
    } else {
        m.v_cursor as int
    }
}

/// The shelf height the active shelf would have just before the placement.
pub open spec fn slot_shelf(m: AtlasModel, w: u32) -> int {
    if wraps(m, w) {
        0
    } else {
        m.current_line_height as int
    }
}

/// A glyph of this size can be placed in the current state.
pub open spec fn fits(m: AtlasModel, w: u32, h: u32) -> bool {
    &&& !oversized(m, w, h)
    &&& slot_y(m, w) + h <= m.height
}

/// The region a glyph of this size is committed to when it fits.
pub open spec fn placed_region(m: AtlasModel, g: Glyph, w: u32, h: u32) -> TextureGlyph {
    TextureGlyph {
        glyph: g,
        bounds: Bounds { x: slot_x(m, w) as i32, y: slot_y(m, w) as i32, width: w, height: h },
    }
}

/// The packer state after committing a glyph of this size: the region is
/// recorded, the horizontal cursor moves past it and one pixel of padding,
/// and the shelf height takes the glyph's height into account.
pub open spec fn place_state(m: AtlasModel, g: Glyph, w: u32, h: u32) -> AtlasModel {
    AtlasModel {
        entries: m.entries.insert(g, placed_region(m, g, w, h)),
        h_cursor: (slot_x(m, w) + w + 1) as u32,
        v_cursor: slot_y(m, w) as u32,
        current_line_height: vstd::math::max(slot_shelf(m, w), h as int) as u32,
        ..m
    }
}

/// What a placement attempt answers: the committed region, or the error
/// that refuses it, with an intrinsically oversized glyph always reported
/// as such rather than as a shortage of space.
pub open spec fn place_result(m: AtlasModel, g: Glyph, w: u32, h: u32) -> Result<
    TextureGlyph,
    CacheError,
> {
    if oversized(m, w, h) {
        Err(CacheError::TextureTooSmall)
    } else if !fits(m, w, h) {
        Err(CacheError::OutOfSpace)
    } else {
        Ok(placed_region(m, g, w, h))
    }
}

/// What a fit check alone answers, with no placement.
pub open spec fn check_result(m: AtlasModel, w: u32, h: u32) -> Result<(), CacheError> {
    if oversized(m, w, h) {
        Err(CacheError::TextureTooSmall)
    } else if !fits(m, w, h) {
        Err(CacheError::OutOfSpace)
    } else {
        Ok(())
    }
}

/// The state after a clear: the lookup table is empty and the cursors are
/// at the origin, while the texture keeps its dimensions (and its pixels).
pub open spec fn reset_state(m: AtlasModel) -> AtlasModel {
    AtlasModel { entries: Map::empty(), h_cursor: 0, v_cursor: 0, current_line_height: 0, ..m }
}

/// A state with nothing committed and the cursors at the origin: what a
/// clear produces, and what a packer starts as.
pub open spec fn is_reset(m: AtlasModel) -> bool {
    m == reset_state(m)
}

/// One resolve step, as the orchestrator runs it for a glyph whose metrics
/// report `mb`: a cached glyph is a hit and changes nothing; otherwise the
/// glyph is placed if it has bounds and they fit, and every failure leaves
/// the state untouched. Returns the next state and the answer.
pub open spec fn resolve_step(m: AtlasModel, g: Glyph, mb: Option<Bounds>) -> (
    AtlasModel,
    Result<TextureGlyph, CacheError>,
) {
    if m.entries.dom().contains(g) {
        (m, Ok(m.entries[g]))
    } else {
        match mb {
            None => (m, Err(CacheError::NonRenderableGlyph(g))),
            Some(b) => if fits(m, b.width, b.height) {
                (place_state(m, g, b.width, b.height), Ok(placed_region(m, g, b.width, b.height)))
            } else {
                (m, place_result(m, g, b.width, b.height))
            },
        }
    }
}

} // verus!
