//! The glyph cache orchestrator: turns text into resolved glyphs, one
//! committed region per distinct glyph, through a font provider and an
//! atlas packer.

use crate::laws::lemma_trace_snoc;
use crate::laws::resolve_trace;
use crate::laws::step_matches;
use crate::model::atlas_inv;
use crate::model::fits;
use crate::model::is_reset;
use crate::model::place_state;
use crate::model::placed_region;
use crate::model::reset_state;
use crate::model::AtlasModel;
use crate::packer::AtlasPacker;
use crate::text::prepare_string;
use crate::types::Bounds;
use crate::types::CacheError;
use crate::types::FontProvider;
use crate::types::Glyph;
use crate::types::Metrics;
use crate::types::Texture;
use crate::types::TextureGlyph;
use vstd::prelude::*;

verus! {

/// The main structure for maintaining a cache of rendered glyphs.
///
/// `FontCache` is an intermediary: it does not read font files or break a
/// string into glyphs — that is the [`FontProvider`]'s work — and it does
/// not store pixels — that is the [`Texture`]'s. What it does is keep track
/// of which glyphs have been rendered and where they were stored, and
/// answer repeat requests without rasterizing again.
pub struct FontCache<F: FontProvider, T: Texture> {
    glyph_buffer: Vec<Glyph>,
    font: F,
    cache: AtlasPacker<T>,
}

impl<F: FontProvider, T: Texture> FontCache<F, T> {
    /// The font provider the cache reads from.
    pub closed spec fn spec_font(self) -> F {
        self.font
    }

    /// The texture the cache currently owns.
    pub closed spec fn spec_texture(self) -> T {
        self.cache.spec_texture()
    }

    /// The cache's packing state, seen mathematically.
    pub closed spec fn model(self) -> AtlasModel {
        self.cache.model()
    }

    /// A well-formed cache: its packer satisfies the atlas invariant.
    pub open spec fn wf(self) -> bool {
        atlas_inv(self.model())
    }

    /// Create a cache that pulls glyphs from `font` and stores their pixels
    /// in `texture`.
    pub fn new(font: F, texture: T) -> (c: FontCache<F, T>)
        ensures
            c.wf(),
            is_reset(c.model()),
            c.spec_font() == font,
            c.spec_texture() == texture,
    {
        FontCache { glyph_buffer: Vec::new(), font, cache: AtlasPacker::new(texture) }
    }

    /// Forget the position of every cached glyph and re-set the cursors.
    ///
    /// This writes nothing into the texture: old regions keep their pixels
    /// but are unreferenced, akin to a use-after-free if a stale
    /// `TextureGlyph` is used afterwards.
    pub fn clear(&mut self)
        requires
            old(self).wf(),
        ensures
            final(self).wf(),
            final(self).model() == reset_state(old(self).model()),
            final(self).spec_texture() == old(self).spec_texture(),
            final(self).spec_font() == old(self).spec_font(),
    {
        self.cache.clear();
    }

    /// Resolve one glyph: answer its cached region, or rasterize and place
    /// it on a miss.
    ///
    /// A cached glyph is answered as it stands, with freshly queried
    /// metrics and with nothing rasterized, written, or moved. A new glyph
    /// is placed at the packing frontier if its metrics report bounds that
    /// fit; otherwise the resolve fails — bounds missing, glyph larger than
    /// the whole texture, or no room left — and the cache is left exactly
    /// as it was, whatever the provider answered.
    pub fn render_glyph(&mut self, key: Glyph) -> (r: Result<(Metrics, TextureGlyph), CacheError>)
        requires
            old(self).wf(),
        ensures
            final(self).wf(),
            final(self).model().width == old(self).model().width,
            final(self).model().height == old(self).model().height,
            final(self).spec_font() == old(self).spec_font(),
            old(self).model().entries.dom().contains(key) ==> (r matches Ok(pair)
                && pair.1 == old(self).model().entries[key]
                && final(self).model() == old(self).model()
                && final(self).spec_texture() == old(self).spec_texture()),
            !old(self).model().entries.dom().contains(key) ==> match r {
                Ok(pair) => pair.0.bounds matches Some(b)
                    && fits(old(self).model(), b.width, b.height)
                    && pair.1 == placed_region(old(self).model(), key, b.width, b.height)
                    && final(self).model() == place_state(old(self).model(), key, b.width, b.height),
                Err(_) => final(self).model() == old(self).model() && final(self).spec_texture()
                    == old(self).spec_texture(),
            },
    {
        if let Some(region) = self.cache.lookup(key) {
            return Ok((self.font.metrics(key), region));
        }
        let metrics = self.font.metrics(key);
        let bounds = match metrics.bounds {
            Some(b) => b,
            None => {
                return Err(CacheError::NonRenderableGlyph(key));
            },
        };
        if let Err(e) = self.cache.check_fit(bounds) {
            return Err(e);
        }
        let pixel = self.font.pixel_type();
        let data = match self.font.rasterize(key) {
            Ok(d) => d,
            Err(e) => {
                return Err(e);
            },
        };
        match self.cache.place(key, bounds, pixel, data.as_slice()) {
            Ok(region) => Ok((metrics, region)),
            Err(e) => Err(e),
        }
    }

    /// Convert a string into a series of resolved glyphs or errors, one per
    /// glyph the provider shapes it into, in shaping order.
    ///
    /// Before shaping, the string is normalized to its canonical
    /// composition and stripped of whitespace. Regions cached before the
    /// call stay cached, under the same regions, and the answers and the
    /// final state arise from consecutive resolves of the shaped glyphs:
    /// there is a request sequence whose [`resolve_trace`] they follow.
    pub fn render_string(&mut self, string: &str) -> (results: Vec<
        Result<(Metrics, TextureGlyph), CacheError>,
    >)
        requires
            old(self).wf(),
        ensures
            final(self).wf(),
            final(self).model().width == old(self).model().width,
            final(self).model().height == old(self).model().height,
            final(self).spec_font() == old(self).spec_font(),
            old(self).model().entries.submap_of(final(self).model().entries),
            forall|j: int|
                0 <= j < results@.len() ==> ((#[trigger] results@[j]) matches Ok(pair)
                    ==> final(self).model().entries.dom().contains(pair.1.glyph)
                    && final(self).model().entries[pair.1.glyph] == pair.1),
            exists|requests: Seq<(Glyph, Option<Bounds>)>|
                resolve_trace(old(self).model(), requests, results@, final(self).model()),
    {
        let prepared = prepare_string(string);
        let mut buf: Vec<Glyph> = Vec::new();
        core::mem::swap(&mut buf, &mut self.glyph_buffer);
        buf.clear();
        self.font.glyphs(prepared.as_str(), &mut buf);
        let mut results: Vec<Result<(Metrics, TextureGlyph), CacheError>> = Vec::new();
        let ghost mut requests: Seq<(Glyph, Option<Bounds>)> = Seq::empty();
        let n: usize = buf.len();
        for i in 0..n
            invariant
                self.wf(),
                self.model().width == old(self).model().width,
                self.model().height == old(self).model().height,
                self.spec_font() == old(self).spec_font(),
                old(self).model().entries.submap_of(self.model().entries),
                buf.len() == n,
                forall|j: int|
                    0 <= j < results@.len() ==> ((#[trigger] results@[j]) matches Ok(pair)
                        ==> self.model().entries.dom().contains(pair.1.glyph)
                        && self.model().entries[pair.1.glyph] == pair.1),
                resolve_trace(old(self).model(), requests, results@, self.model()),
        {
            let g = buf[i];
            let ghost pre = self.model();
            let ghost pre_results = results@;
            let res = self.render_glyph(g);
            proof {
                let mb: Option<Bounds> = match res {
                    Ok(pair) => pair.0.bounds,
                    Err(_) => None,
                };
                assert(step_matches(pre, g, mb, res, self.model()));
                lemma_trace_snoc(
                    old(self).model(),
                    requests,
                    pre_results,
                    pre,
                    g,
                    mb,
                    res,
                    self.model(),
                );
                requests = requests.push((g, mb));
            }
            results.push(res);
        }
        proof {
            assert(resolve_trace(old(self).model(), requests, results@, self.model()));
        }
        buf.clear();
        core::mem::swap(&mut buf, &mut self.glyph_buffer);
        results
    }

    /// Cache a string, discarding the resolved glyphs and answering the
    /// first failure, if any.
    ///
    /// Useful when the entire domain of possible glyphs is known
    /// beforehand, as with a bitmap font. Resolution stops at the first
    /// failing glyph; the glyphs before it stay cached: the final state
    /// arises from consecutive resolves of the shaped glyphs, all of them
    /// successful but, on failure, the last.
    pub fn cache_string(&mut self, string: &str) -> (r: Result<(), CacheError>)
        requires
            old(self).wf(),
        ensures
            final(self).wf(),
            final(self).model().width == old(self).model().width,
            final(self).model().height == old(self).model().height,
            final(self).spec_font() == old(self).spec_font(),
            old(self).model().entries.submap_of(final(self).model().entries),
            exists|
                requests: Seq<(Glyph, Option<Bounds>)>,
                answers: Seq<Result<(Metrics, TextureGlyph), CacheError>>,
            |
                resolve_trace(old(self).model(), requests, answers, final(self).model()) && match r {
                    Ok(_) => forall|j: int| 0 <= j < answers.len() ==> (#[trigger] answers[j]) is Ok,
                    Err(e) => answers.len() > 0 && answers.last() == Err::<
                        (Metrics, TextureGlyph),
                        CacheError,
                    >(e) && forall|j: int|
                        0 <= j < answers.len() - 1 ==> (#[trigger] answers[j]) is Ok,
                },
    {
        let prepared = prepare_string(string);
        let mut buf: Vec<Glyph> = Vec::new();
        core::mem::swap(&mut buf, &mut self.glyph_buffer);
        buf.clear();
        self.font.glyphs(prepared.as_str(), &mut buf);
        let ghost mut requests: Seq<(Glyph, Option<Bounds>)> = Seq::empty();
        let ghost mut answers: Seq<Result<(Metrics, TextureGlyph), CacheError>> = Seq::empty();
        let n: usize = buf.len();
        for i in 0..n
            invariant
                self.wf(),
                self.model().width == old(self).model().width,
                self.model().height == old(self).model().height,
                self.spec_font() == old(self).spec_font(),
                old(self).model().entries.submap_of(self.model().entries),
                buf.len() == n,
                resolve_trace(old(self).model(), requests, answers, self.model()),
                forall|j: int| 0 <= j < answers.len() ==> (#[trigger] answers[j]) is Ok,
        {
            let g = buf[i];
            let ghost pre = self.model();
            let ghost pre_answers = answers;
            let res = self.render_glyph(g);
            proof {
                let mb: Option<Bounds> = match res {
                    Ok(pair) => pair.0.bounds,
                    Err(_) => None,
                };
                assert(step_matches(pre, g, mb, res, self.model()));
                lemma_trace_snoc(
                    old(self).model(),
                    requests,
                    pre_answers,
                    pre,
                    g,
                    mb,
                    res,
                    self.model(),
                );
                requests = requests.push((g, mb));
                answers = answers.push(res);
            }
            match res {
                Ok(_) => {},
                Err(e) => {
                    buf.clear();
                    core::mem::swap(&mut buf, &mut self.glyph_buffer);
                    proof {
                        assert(resolve_trace(old(self).model(), requests, answers, self.model()));
                        assert(answers.last() == Err::<(Metrics, TextureGlyph), CacheError>(e));
                        assert(forall|j: int|
                            0 <= j < answers.len() - 1 ==> (#[trigger] answers[j]) is Ok);
                    }
                    return Err(e);
                },
            }
        }
        buf.clear();
        core::mem::swap(&mut buf, &mut self.glyph_buffer);
        proof {
            assert(resolve_trace(old(self).model(), requests, answers, self.model()));
        }
        Ok(())
    }

    /// Swap out the internal texture for another one and hand the previous
    /// one back. This clears the cache: cached regions are valid only
    /// relative to the texture they were written into.
    pub fn replace_texture(&mut self, texture: T) -> (old_texture: T)
        requires
            old(self).wf(),
        ensures
            final(self).wf(),
            is_reset(final(self).model()),
            old_texture == old(self).spec_texture(),
            final(self).spec_texture() == texture,
            final(self).spec_font() == old(self).spec_font(),
    {
        self.cache.replace_texture(texture)
    }

    /// The texture the cache currently owns.
    pub fn texture(&self) -> (t: &T)
        ensures
            *t == self.spec_texture(),
    {
        self.cache.texture()
    }

    /// The font provider the cache reads from.
    pub fn font(&self) -> (f: &F)
        ensures
            *f == self.spec_font(),
    {
        &self.font
    }
}

} // verus!
