//! A cache for rasterized glyphs packed into a fixed-size texture atlas.
//!
//! The cache sits between font shaping (text to glyph identifiers) and
//! rendering (glyph to pixels on screen). Each glyph is rasterized and
//! written into the texture at most once; repeat requests are answered from
//! a lookup table. Placement uses shelf packing: rows of varying height are
//! filled left to right and stacked top to bottom, with one pixel of padding
//! between neighbours so that bilinear filtering does not bleed across
//! glyphs.
//!
//! Rasterization and glyph enumeration are delegated to a [`FontProvider`];
//! pixel storage is delegated to a [`Texture`]. The cache itself owns only
//! the lookup table, the packing cursors, and the texture.

mod cache;
mod laws;
mod model;
mod packer;
mod store;
mod text;
mod types;

pub use cache::FontCache;

pub use laws::lemma_failure_leaves_state;
pub use laws::lemma_hit_idempotent;
pub use laws::lemma_oversized_refused;
pub use laws::lemma_place_preserves_inv;
pub use laws::lemma_regions_contained;
pub use laws::lemma_regions_disjoint;
pub use laws::lemma_reset_replay_deterministic;
pub use laws::lemma_trace_snoc;
pub use laws::replay;
pub use laws::resolve_trace;
pub use laws::step_answer_matches;
pub use laws::step_matches;
pub use laws::step_state;

pub use model::atlas_inv;
pub use model::behind_frontier;
pub use model::check_result;
pub use model::contained;
pub use model::disjoint;
pub use model::fits;
pub use model::is_reset;
pub use model::oversized;
pub use model::place_result;
pub use model::place_state;
pub use model::placed_region;
pub use model::reset_state;
pub use model::resolve_step;
pub use model::slot_shelf;
pub use model::slot_x;
pub use model::slot_y;
pub use model::wraps;
pub use model::AtlasModel;

pub use packer::AtlasPacker;
pub use packer::MAX_DIMENSION;

pub use store::glyph_entries;
pub use store::GlyphMap;

pub use text::nfc_of;
pub use text::prepare_string;
pub use text::prepared_text;
pub use text::strip_whitespace_spec;
pub use text::whitespace;

pub use types::Bounds;
pub use types::CacheError;
pub use types::FontProvider;
pub use types::Glyph;
pub use types::Metrics;
pub use types::PixelType;
pub use types::Texture;
pub use types::TextureGlyph;
