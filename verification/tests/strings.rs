//! String resolution: normalization, whitespace stripping, shaping order,
//! and the warm-up path.

use elefont::Bounds;
use elefont::CacheError;
use elefont::FontCache;
use elefont::FontProvider;
use elefont::Glyph;
use elefont::Metrics;
use elefont::PixelType;
use elefont::Texture;
use std::cell::Cell;
use std::cell::RefCell;

/// A provider that maps each character to the glyph of its code point,
/// gives every glyph a 1x1 rectangle, and records what it was asked to
/// shape.
struct CharFont {
    shaped: RefCell<Vec<String>>,
    rasterize_calls: Cell<u32>,
}

impl CharFont {
    fn new() -> Self {
        CharFont { shaped: RefCell::new(Vec::new()), rasterize_calls: Cell::new(0) }
    }
}

impl FontProvider for CharFont {
    fn pixel_type(&self) -> PixelType {
        PixelType::Alpha
    }

    fn single_glyph(&self, character: char) -> Glyph {
        Glyph(character as u32)
    }

    fn glyphs(&self, string: &str, glyphs: &mut Vec<Glyph>) {
        self.shaped.borrow_mut().push(string.to_owned());
        for c in string.chars() {
            glyphs.push(self.single_glyph(c));
        }
    }

    fn metrics(&self, _glyph: Glyph) -> Metrics {
        Metrics { bounds: Some(Bounds { x: 0, y: 0, width: 1, height: 1 }) }
    }

    fn rasterize(&self, _glyph: Glyph) -> Result<Vec<u8>, CacheError> {
        self.rasterize_calls.set(self.rasterize_calls.get() + 1);
        Ok(vec![0u8])
    }
}

/// A fixed-size texture that ignores its writes.
struct PlainTexture {
    width: u32,
    height: u32,
}

impl Texture for PlainTexture {
    fn width(&self) -> u32 {
        self.width
    }

    fn height(&self) -> u32 {
        self.height
    }

    fn put_rect(&mut self, _pixel: PixelType, _data: &[u8], _gpu: &elefont::TextureGlyph) {}
}

#[test]
fn whitespace_is_stripped_before_shaping() {
    let mut cache = FontCache::new(CharFont::new(), PlainTexture { width: 64, height: 64 });
    let results = cache.render_string(" a\tb \nc ");
    assert_eq!(results.len(), 3);
    assert_eq!(cache.font().shaped.borrow().as_slice(), &["abc".to_owned()]);
    for r in &results {
        assert!(r.is_ok());
    }
}

#[test]
fn text_is_canonically_composed_before_shaping() {
    let mut cache = FontCache::new(CharFont::new(), PlainTexture { width: 64, height: 64 });
    // 'e' followed by a combining acute accent composes to a single
    // U+00E9; an unchanged pass-through would shape two characters.
    let results = cache.render_string("e\u{0301}");
    assert_eq!(results.len(), 1);
    assert_eq!(results[0].as_ref().unwrap().1.glyph, Glyph(0xE9));
}

#[test]
fn shaping_order_is_kept() {
    let mut cache = FontCache::new(CharFont::new(), PlainTexture { width: 64, height: 64 });
    let results = cache.render_string("cab");
    let glyphs: Vec<u32> = results.iter().map(|r| r.as_ref().unwrap().1.glyph.0).collect();
    assert_eq!(glyphs, vec!['c' as u32, 'a' as u32, 'b' as u32]);
}

#[test]
fn repeated_characters_share_one_region() {
    let mut cache = FontCache::new(CharFont::new(), PlainTexture { width: 64, height: 64 });
    let results = cache.render_string("aaa");
    assert_eq!(results.len(), 3);
    let first = results[0].as_ref().unwrap().1;
    for r in &results {
        assert_eq!(r.as_ref().unwrap().1, first);
    }
    assert_eq!(cache.font().rasterize_calls.get(), 1);
}

#[test]
fn cache_string_warms_every_glyph() {
    let mut cache = FontCache::new(CharFont::new(), PlainTexture { width: 64, height: 64 });
    cache.cache_string("abc").unwrap();
    // All three are hits now: no further rasterization.
    let calls = cache.font().rasterize_calls.get();
    assert_eq!(calls, 3);
    let results = cache.render_string("abc");
    assert!(results.iter().all(|r| r.is_ok()));
    assert_eq!(cache.font().rasterize_calls.get(), calls);
}

#[test]
fn cache_string_answers_the_first_failure() {
    // Room for exactly one 1x1 glyph: a second distinct glyph wraps to a
    // shelf below the texture and runs out of space.
    let mut cache = FontCache::new(CharFont::new(), PlainTexture { width: 1, height: 1 });
    assert_eq!(cache.cache_string("ab"), Err(CacheError::OutOfSpace));
    // The first glyph was cached before the failure; the failing glyph was
    // never rasterized, since the fit check precedes rasterization.
    assert_eq!(cache.font().rasterize_calls.get(), 1);
    let results = cache.render_string("a");
    assert!(results[0].is_ok());
    assert_eq!(cache.font().rasterize_calls.get(), 1);
}
