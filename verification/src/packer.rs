//! The atlas packer: owns one texture and the record of which glyph lives
//! where inside it, and assigns regions by shelf packing.
//!
//! Every method's contract is stated over the packer's [`AtlasModel`]; the
//! laws proved in [`crate::laws`] then apply to every state a packer can
//! reach.

use crate::laws::lemma_place_preserves_inv;
use crate::model::atlas_inv;
use crate::model::check_result;
use crate::model::fits;
use crate::model::is_reset;
use crate::model::place_result;
use crate::model::place_state;
use crate::model::reset_state;
use crate::model::AtlasModel;
use crate::store::glyph_entries;
use crate::store::GlyphMap;
use crate::types::Bounds;
use crate::types::CacheError;
use crate::types::Glyph;
use crate::types::PixelType;
use crate::types::Texture;
use crate::types::TextureGlyph;
use vstd::prelude::*;

verus! {

/// The usable coordinate range: committed coordinates are `i32`, so the
/// packer uses at most this much of a texture's width and height.
pub const MAX_DIMENSION: u32 = 0x7fff_ffff;

/// One texture and the shelf-packing state over it.
///
/// The texture's dimensions are read once, when the packer takes ownership
/// of it, and clamped to [`MAX_DIMENSION`]; a texture is a fixed-size store,
/// so they are not read again.
pub struct AtlasPacker<T: Texture> {
    texture: T,
    tex_width: u32,
    tex_height: u32,
    map: GlyphMap,
    h_cursor: u32,
    v_cursor: u32,
    current_line_height: u32,
}

impl<T: Texture> AtlasPacker<T> {
    /// The texture this packer currently owns.
    pub closed spec fn spec_texture(self) -> T {
        self.texture
    }

    /// The packer's state, seen mathematically.
    pub closed spec fn model(self) -> AtlasModel {
        AtlasModel {
            entries: glyph_entries(self.map),
            h_cursor: self.h_cursor,
            v_cursor: self.v_cursor,
            current_line_height: self.current_line_height,
            width: self.tex_width,
            height: self.tex_height,
        }
    }

    /// A well-formed packer: its model satisfies the atlas invariant.
    pub open spec fn wf(self) -> bool {
        atlas_inv(self.model())
    }

    /// A fresh packer over the given texture: nothing committed, cursors at
    /// the origin.
    pub fn new(texture: T) -> (p: AtlasPacker<T>)
        ensures
            p.wf(),
            is_reset(p.model()),
            p.spec_texture() == texture,
    {
        let w = texture.width();
        let h = texture.height();
        let p = AtlasPacker {
            texture,
            tex_width: if w > MAX_DIMENSION {
                MAX_DIMENSION
            } else {
                w
            },
            tex_height: if h > MAX_DIMENSION {
                MAX_DIMENSION
            } else {
                h
            },
            map: GlyphMap::new(),
            h_cursor: 0,
            v_cursor: 0,
            current_line_height: 0,
        };
        proof {
            assert(p.model() =~= reset_state(p.model()));
        }
        p
    }

    /// The committed region for a glyph, if one is cached.
    pub fn lookup(&self, glyph: Glyph) -> (r: Option<TextureGlyph>)
        ensures
            r == if self.model().entries.dom().contains(glyph) {
                Some(self.model().entries[glyph])
            } else {
                None::<TextureGlyph>
            },
    {
        self.map.get(glyph)
    }

    /// Whether a glyph of the given bounds could be committed right now,
    /// with nothing committed and nothing moved: the answer a placement
    /// would give, without the placement.
    pub fn check_fit(&self, bounds: Bounds) -> (r: Result<(), CacheError>)
        requires
            self.wf(),
        ensures
            r == check_result(self.model(), bounds.width, bounds.height),
    {
        if bounds.width > self.tex_width || bounds.height > self.tex_height {
            return Err(CacheError::TextureTooSmall);
        }
        let slot_y: u32 = if self.h_cursor + bounds.width > self.tex_width {
            self.v_cursor + self.current_line_height + 1
        } else {
            self.v_cursor
        };
        if slot_y + bounds.height > self.tex_height {
            return Err(CacheError::OutOfSpace);
        }
        Ok(())
    }

    /// Commit a glyph of the given bounds: write its pixels into the
    /// texture and record its region. Fails with `TextureTooSmall` for a
    /// glyph that no texture of these dimensions could hold, and with
    /// `OutOfSpace` when the remaining room cannot take it; either failure
    /// leaves the packer exactly as it was.
    pub fn place(&mut self, glyph: Glyph, bounds: Bounds, pixel: PixelType, data: &[u8]) -> (r:
        Result<TextureGlyph, CacheError>)
        requires
            old(self).wf(),
        ensures
            final(self).wf(),
            r == place_result(old(self).model(), glyph, bounds.width, bounds.height),
            fits(old(self).model(), bounds.width, bounds.height) ==> final(self).model()
                == place_state(old(self).model(), glyph, bounds.width, bounds.height),
            !fits(old(self).model(), bounds.width, bounds.height) ==> final(self).model() == old(
                self,
            ).model(),
            !fits(old(self).model(), bounds.width, bounds.height) ==> final(self).spec_texture()
                == old(self).spec_texture(),
    {
        let w = bounds.width;
        let h = bounds.height;
        if w > self.tex_width || h > self.tex_height {
            return Err(CacheError::TextureTooSmall);
        }
        // Work out the slot first; nothing is committed until it is known
        // to fit.
        let wrap: bool = self.h_cursor + w > self.tex_width;
        let slot_x: u32 = if wrap {
            0
        } else {
            self.h_cursor
        };
        let slot_y: u32 = if wrap {
            self.v_cursor + self.current_line_height + 1
        } else {
            self.v_cursor
        };
        let shelf: u32 = if wrap {
            0
        } else {
            self.current_line_height
        };
        if slot_y + h > self.tex_height {
            return Err(CacheError::OutOfSpace);
        }
        let region = TextureGlyph {
            glyph,
            bounds: Bounds { x: slot_x as i32, y: slot_y as i32, width: w, height: h },
        };
        self.texture.put_rect(pixel, data, &region);
        self.h_cursor = slot_x + w + 1;
        self.v_cursor = slot_y;
        self.current_line_height = if shelf > h {
            shelf
        } else {
            h
        };
        self.map.insert(glyph, region);
        proof {
            lemma_place_preserves_inv(old(self).model(), glyph, w, h);
            assert(self.model() =~= place_state(old(self).model(), glyph, w, h));
        }
        Ok(region)
    }

    /// Forget every committed region and re-set the cursors.
    ///
    /// This writes nothing into the texture: stale pixels remain, merely
    /// unreferenced. Any `TextureGlyph` obtained before the clear is a
    /// dangling reference and must not be used afterwards.
    pub fn clear(&mut self)
        requires
            old(self).wf(),
        ensures
            final(self).wf(),
            final(self).model() == reset_state(old(self).model()),
            final(self).spec_texture() == old(self).spec_texture(),
    {
        self.map.clear();
        self.h_cursor = 0;
        self.v_cursor = 0;
        self.current_line_height = 0;
        proof {
            assert(self.model() =~= reset_state(old(self).model()));
        }
    }

    /// Swap in a new texture and hand back the previous one, clearing the
    /// cache as a side effect: committed regions are valid only relative to
    /// the texture instance they were written into.
    pub fn replace_texture(&mut self, texture: T) -> (old_texture: T)
        requires
            old(self).wf(),
        ensures
            final(self).wf(),
            is_reset(final(self).model()),
            old_texture == old(self).spec_texture(),
            final(self).spec_texture() == texture,
    {
        let mut texture = texture;
        core::mem::swap(&mut self.texture, &mut texture);
        let w = self.texture.width();
        let h = self.texture.height();
        self.tex_width = if w > MAX_DIMENSION {
            MAX_DIMENSION
        } else {
            w
        };
        self.tex_height = if h > MAX_DIMENSION {
            MAX_DIMENSION
        } else {
            h
        };
        self.map.clear();
        self.h_cursor = 0;
        self.v_cursor = 0;
        self.current_line_height = 0;
        proof {
            assert(self.model() =~= reset_state(self.model()));
        }
        texture
    }

    /// The texture the packer currently owns.
    pub fn texture(&self) -> (t: &T)
        ensures
            *t == self.spec_texture(),
    {
        &self.texture
    }
}

} // verus!
