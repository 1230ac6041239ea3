//! The glyph lookup table, backed by `hashbrown::HashMap`.
//!
//! The map itself is outside code; Verus sees it only through [`GlyphMap`],
//! whose contents are named by [`glyph_entries`] and whose methods carry the
//! contracts that `hashbrown`'s documented behaviour supports: `get` answers
//! what was `insert`ed for an equal key, `insert` adds or replaces one
//! entry, `clear` removes them all.

use crate::types::Glyph;
use crate::types::TextureGlyph;
use vstd::prelude::*;

verus! {

/// The lookup table from glyph to committed region.
///
/// `hashbrown::HashMap` takes an allocator type parameter from a crate this
/// one does not name, so the type cannot be declared to Verus directly; it
/// is held opaquely here instead and spoken of through [`glyph_entries`].
#[verifier::external_body]
pub struct GlyphMap {
    inner: hashbrown::HashMap<Glyph, TextureGlyph>,
}

/// What the lookup table holds: one committed region per cached glyph.
pub uninterp spec fn glyph_entries(m: GlyphMap) -> Map<Glyph, TextureGlyph>;

/// The lookup table holds nothing.
pub open spec fn no_glyph_entries(m: GlyphMap) -> bool {
    glyph_entries(m) == Map::<Glyph, TextureGlyph>::empty()
}

impl GlyphMap {
    /// Relies on `hashbrown::HashMap::new`: the new map is empty.
    #[verifier::external_body]
    pub fn new() -> (m: GlyphMap)
        ensures
            no_glyph_entries(m),
    {
        GlyphMap { inner: hashbrown::HashMap::new() }
    }

    /// Relies on `hashbrown::HashMap::get`: answers the value inserted for
    /// an equal key, or nothing when no such key is present.
    #[verifier::external_body]
    pub fn get(&self, glyph: Glyph) -> (r: Option<TextureGlyph>)
        ensures
            r == if glyph_entries(*self).dom().contains(glyph) {
                Some(glyph_entries(*self)[glyph])
            } else {
                None::<TextureGlyph>
            },
    {
        self.inner.get(&glyph).copied()
    }

    /// Relies on `hashbrown::HashMap::insert`: adds the entry, replacing
    /// any previous entry for an equal key, and changes no other entry.
    #[verifier::external_body]
    pub fn insert(&mut self, glyph: Glyph, region: TextureGlyph)
        ensures
            glyph_entries(*final(self)) == glyph_entries(*old(self)).insert(glyph, region),
    {
        self.inner.insert(glyph, region);
    }

    /// Relies on `hashbrown::HashMap::clear`: removes every entry.
    #[verifier::external_body]
    pub fn clear(&mut self)
        ensures
            no_glyph_entries(*final(self)),
    {
        self.inner.clear();
    }
}

} // verus!
