//! Placement behaviour of the cache: shelf packing, capacity failures,
//! hits, and the clear/replace lifecycle.

use elefont::Bounds;
use elefont::CacheError;
use elefont::FontCache;
use elefont::FontProvider;
use elefont::Glyph;
use elefont::Metrics;
use elefont::PixelType;
use elefont::Texture;
use std::cell::Cell;

/// A provider whose glyph identifiers encode their own bounds: the two low
/// digit pairs of the identifier give the width and height, higher digits
/// distinguish glyphs of equal size, and glyph 0 has no bounds.
struct SizedFont {
    rasterize_calls: Cell<u32>,
}

impl SizedFont {
    fn new() -> Self {
        SizedFont { rasterize_calls: Cell::new(0) }
    }
}

fn sized(w: u32, h: u32) -> Glyph {
    Glyph(w * 100 + h)
}

fn sized_variant(w: u32, h: u32, n: u32) -> Glyph {
    Glyph(n * 10000 + w * 100 + h)
}

impl FontProvider for SizedFont {
    fn pixel_type(&self) -> PixelType {
        PixelType::Alpha
    }

    fn single_glyph(&self, character: char) -> Glyph {
        Glyph(character as u32)
    }

    fn glyphs(&self, string: &str, glyphs: &mut Vec<Glyph>) {
        for c in string.chars() {
            glyphs.push(self.single_glyph(c));
        }
    }

    fn metrics(&self, glyph: Glyph) -> Metrics {
        if glyph.0 == 0 {
            Metrics { bounds: None }
        } else {
            Metrics {
                bounds: Some(Bounds {
                    x: 0,
                    y: 0,
                    width: (glyph.0 / 100) % 100,
                    height: glyph.0 % 100,
                }),
            }
        }
    }

    fn rasterize(&self, glyph: Glyph) -> Result<Vec<u8>, CacheError> {
        self.rasterize_calls.set(self.rasterize_calls.get() + 1);
        Ok(vec![0u8; (((glyph.0 / 100) % 100) * (glyph.0 % 100)) as usize])
    }
}

/// A fixed-size texture that counts its writes.
struct CountingTexture {
    width: u32,
    height: u32,
    writes: u32,
}

impl CountingTexture {
    fn new(width: u32, height: u32) -> Self {
        CountingTexture { width, height, writes: 0 }
    }
}

impl Texture for CountingTexture {
    fn width(&self) -> u32 {
        self.width
    }

    fn height(&self) -> u32 {
        self.height
    }

    fn put_rect(&mut self, _pixel: PixelType, _data: &[u8], _gpu: &elefont::TextureGlyph) {
        self.writes += 1;
    }
}

#[test]
fn shelf_scenario_eight_by_four() {
    let mut cache = FontCache::new(SizedFont::new(), CountingTexture::new(8, 4));
    let a = sized(3, 2);
    let b = sized_variant(3, 2, 1);
    let (_, ra) = cache.render_glyph(a).unwrap();
    assert_eq!(ra.bounds, Bounds { x: 0, y: 0, width: 3, height: 2 });
    let (_, rb) = cache.render_glyph(b).unwrap();
    assert_eq!(rb.bounds, Bounds { x: 4, y: 0, width: 3, height: 2 });
    let c = sized_variant(3, 2, 2);
    let err = cache.render_glyph(c).unwrap_err();
    assert_eq!(err, CacheError::OutOfSpace);
    // A and B survive the failure and are answered as hits.
    let (_, ra2) = cache.render_glyph(a).unwrap();
    assert_eq!(ra2, ra);
    let (_, rb2) = cache.render_glyph(b).unwrap();
    assert_eq!(rb2, rb);
}

#[test]
fn oversized_always_texture_too_small() {
    let mut cache = FontCache::new(SizedFont::new(), CountingTexture::new(8, 4));
    // Too wide, on an empty cache.
    assert_eq!(cache.render_glyph(sized(9, 1)).unwrap_err(), CacheError::TextureTooSmall);
    // Too tall, after something was cached.
    cache.render_glyph(sized(3, 2)).unwrap();
    assert_eq!(cache.render_glyph(sized(1, 5)).unwrap_err(), CacheError::TextureTooSmall);
}

#[test]
fn unsized_glyph_is_non_renderable() {
    let mut cache = FontCache::new(SizedFont::new(), CountingTexture::new(8, 4));
    assert_eq!(cache.render_glyph(Glyph(0)).unwrap_err(), CacheError::NonRenderableGlyph(Glyph(0)));
}

#[test]
fn hit_is_idempotent_and_rasterizes_once() {
    let mut cache = FontCache::new(SizedFont::new(), CountingTexture::new(8, 4));
    let g = sized(3, 2);
    let (_, first) = cache.render_glyph(g).unwrap();
    let (_, second) = cache.render_glyph(g).unwrap();
    assert_eq!(first, second);
    assert_eq!(cache.font().rasterize_calls.get(), 1);
    assert_eq!(cache.texture().writes, 1);
}

#[test]
fn out_of_space_mutates_nothing() {
    let mut cache = FontCache::new(SizedFont::new(), CountingTexture::new(8, 4));
    let a = sized(3, 2);
    cache.render_glyph(a).unwrap();
    // 5x3 forces a row wrap that then fails the vertical check; the wrapped
    // cursors must not be kept.
    assert_eq!(cache.render_glyph(sized(5, 3)).unwrap_err(), CacheError::OutOfSpace);
    // A 1x1 glyph still goes on the first shelf, right of the 3x2 region --
    // not onto the shelf the failed attempt would have opened.
    let (_, rd) = cache.render_glyph(sized(1, 1)).unwrap();
    assert_eq!(rd.bounds, Bounds { x: 4, y: 0, width: 1, height: 1 });
    // And the cached region is untouched.
    let (_, ra) = cache.render_glyph(a).unwrap();
    assert_eq!(ra.bounds, Bounds { x: 0, y: 0, width: 3, height: 2 });
}

#[test]
fn clear_then_replay_reproduces_layout() {
    let mut cache = FontCache::new(SizedFont::new(), CountingTexture::new(16, 16));
    let keys = [sized(3, 2), sized(5, 4), sized(2, 2), sized(7, 1)];
    let mut first = Vec::new();
    for k in keys {
        first.push(cache.render_glyph(k).unwrap().1);
    }
    cache.clear();
    let mut second = Vec::new();
    for k in keys {
        second.push(cache.render_glyph(k).unwrap().1);
    }
    assert_eq!(first, second);
    // The clear really forgot the glyphs: each was rasterized and written
    // again, not answered as a stale hit.
    assert_eq!(cache.font().rasterize_calls.get(), 8);
    assert_eq!(cache.texture().writes, 8);
    // A fresh cache over equal dimensions lays the sequence out identically
    // as well.
    let mut other = FontCache::new(SizedFont::new(), CountingTexture::new(16, 16));
    let mut third = Vec::new();
    for k in keys {
        third.push(other.render_glyph(k).unwrap().1);
    }
    assert_eq!(first, third);
}

#[test]
fn replace_texture_hands_back_the_old_one_and_clears() {
    let mut cache = FontCache::new(SizedFont::new(), CountingTexture::new(8, 4));
    let g = sized(3, 2);
    cache.render_glyph(g).unwrap();
    let old = cache.replace_texture(CountingTexture::new(32, 32));
    assert_eq!(old.writes, 1);
    assert_eq!((old.width, old.height), (8, 4));
    assert_eq!((cache.texture().width, cache.texture().height), (32, 32));
    // The glyph is gone: resolving it again re-rasterizes and starts at the
    // origin of the new texture.
    let (_, r) = cache.render_glyph(g).unwrap();
    assert_eq!(r.bounds, Bounds { x: 0, y: 0, width: 3, height: 2 });
    assert_eq!(cache.font().rasterize_calls.get(), 2);
}

#[test]
fn rasterize_failure_propagates_and_caches_nothing() {
    /// A provider that reports bounds but cannot rasterize.
    struct BrokenFont;

    impl FontProvider for BrokenFont {
        fn pixel_type(&self) -> PixelType {
            PixelType::Alpha
        }

        fn single_glyph(&self, character: char) -> Glyph {
            Glyph(character as u32)
        }

        fn glyphs(&self, string: &str, glyphs: &mut Vec<Glyph>) {
            for c in string.chars() {
                glyphs.push(self.single_glyph(c));
            }
        }

        fn metrics(&self, _glyph: Glyph) -> Metrics {
            Metrics { bounds: Some(Bounds { x: 0, y: 0, width: 1, height: 1 }) }
        }

        fn rasterize(&self, glyph: Glyph) -> Result<Vec<u8>, CacheError> {
            Err(CacheError::NonRenderableGlyph(glyph))
        }
    }

    let mut cache = FontCache::new(BrokenFont, CountingTexture::new(8, 4));
    let g = Glyph(7);
    assert_eq!(cache.render_glyph(g).unwrap_err(), CacheError::NonRenderableGlyph(g));
    // Nothing was written or cached: the next attempt fails the same way
    // rather than answering a hit.
    assert_eq!(cache.texture().writes, 0);
    assert_eq!(cache.render_glyph(g).unwrap_err(), CacheError::NonRenderableGlyph(g));
}

#[test]
fn error_messages_name_the_failure() {
    assert_eq!(
        CacheError::TextureTooSmall.message(),
        "The texture is too small to render the given input"
    );
    assert_eq!(
        CacheError::OutOfSpace.message(),
        "The cache is out of space, and must be cleared before more rendering"
    );
    assert_eq!(
        CacheError::NonRenderableGlyph(Glyph(1)).message(),
        "Attempted to render an un-renderable glyph"
    );
}
