//! What the atlas packer guarantees, stated and proved over the model.

use crate::model::atlas_inv;
use crate::model::behind_frontier;
use crate::model::contained;
use crate::model::disjoint;
use crate::model::fits;
use crate::model::place_state;
use crate::model::placed_region;
use crate::model::reset_state;
use crate::model::resolve_step;
use crate::model::wraps;
use crate::model::AtlasModel;
use crate::types::Bounds;
use crate::types::CacheError;
use crate::types::Glyph;
use crate::types::Metrics;
use crate::types::TextureGlyph;
use vstd::prelude::*;

verus! {

/// Containment: every committed region lies inside the texture.
pub proof fn lemma_regions_contained(m: AtlasModel, g: Glyph)
    requires
        atlas_inv(m),
        m.entries.dom().contains(g),
    ensures
        0 <= m.entries[g].bounds.x,
        0 <= m.entries[g].bounds.y,
        m.entries[g].bounds.x + m.entries[g].bounds.width <= m.width,
        m.entries[g].bounds.y + m.entries[g].bounds.height <= m.height,
{
}

/// Non-overlap: no two regions committed without an intervening clear or
/// texture swap share a pixel.
pub proof fn lemma_regions_disjoint(m: AtlasModel, g1: Glyph, g2: Glyph)
    requires
        atlas_inv(m),
        m.entries.dom().contains(g1),
        m.entries.dom().contains(g2),
        g1 != g2,
    ensures
        disjoint(m.entries[g1].bounds, m.entries[g2].bounds),
{
}

/// Committing a glyph that fits preserves the invariant, and the freshly
/// committed region is contained in the texture and disjoint from every
/// region committed before it.
pub proof fn lemma_place_preserves_inv(m: AtlasModel, g: Glyph, w: u32, h: u32)
    requires
        atlas_inv(m),
        fits(m, w, h),
    ensures
        atlas_inv(place_state(m, g, w, h)),
        contained(placed_region(m, g, w, h).bounds, m.width, m.height),
        forall|g2: Glyph|
            m.entries.dom().contains(g2) ==> disjoint(
                placed_region(m, g, w, h).bounds,
                (#[trigger] m.entries[g2]).bounds,
            ),
{
    let next = place_state(m, g, w, h);
    let fresh = placed_region(m, g, w, h).bounds;
    assert forall|g2: Glyph| m.entries.dom().contains(g2) implies disjoint(
        fresh,
        (#[trigger] m.entries[g2]).bounds,
    ) by {
        let b = m.entries[g2].bounds;
        if wraps(m, w) {
            // Every earlier region ends above the new shelf.
            assert(b.y + b.height <= m.v_cursor + m.current_line_height);
        } else {
            // Regions on the active shelf end left of the cursor; regions on
            // earlier shelves end above it.
            assert(behind_frontier(m, b));
        }
    }
    assert forall|g2: Glyph| next.entries.dom().contains(g2) implies behind_frontier(
        next,
        (#[trigger] next.entries[g2]).bounds,
    ) by {
        if g2 != g {
            let b = m.entries[g2].bounds;
            assert(behind_frontier(m, b));
        }
    }
    assert(atlas_inv(next));
}

/// Idempotent hit: once a resolve has answered a region for a glyph, a
/// second resolve of the same glyph, without an intervening clear, answers
/// the identical region and leaves the atlas unchanged — whatever metrics
/// the provider reports the second time.
pub proof fn lemma_hit_idempotent(m: AtlasModel, g: Glyph, mb1: Option<Bounds>, mb2: Option<
    Bounds,
>)
    requires
        resolve_step(m, g, mb1).1 is Ok,
    ensures
        resolve_step(resolve_step(m, g, mb1).0, g, mb2) == (
            resolve_step(m, g, mb1).0,
            resolve_step(m, g, mb1).1,
        ),
{
}

/// Permanent oversize: a glyph whose bounds exceed the texture dimensions
/// is refused with `TextureTooSmall` whatever the cursors hold and whatever
/// else is cached. (A region already cached for the same identifier is
/// answered as a hit without a size check, so the claim is stated for
/// glyphs not yet cached.)
pub proof fn lemma_oversized_refused(m: AtlasModel, g: Glyph, b: Bounds)
    requires
        !m.entries.dom().contains(g),
        b.width > m.width || b.height > m.height,
    ensures
        resolve_step(m, g, Some(b)) == (
            m,
            Err::<TextureGlyph, CacheError>(CacheError::TextureTooSmall),
        ),
{
}

/// No mutation on failure: a resolve that answers an error — for want of
/// space, for an oversized glyph, or for a glyph without bounds — leaves
/// the lookup table and the cursors exactly as they were.
pub proof fn lemma_failure_leaves_state(m: AtlasModel, g: Glyph, mb: Option<Bounds>)
    requires
        resolve_step(m, g, mb).1 is Err,
    ensures
        resolve_step(m, g, mb).0 == m,
{
}

/// Whether one resolve answer is consistent with the model: the provider
/// answered the metrics whose bounds are `mb`; an `Ok` answer is exactly
/// what [`resolve_step`] gives for them, and a failure is either the
/// packer's refusal or the provider's own rasterization error, whose value
/// the provider chooses.
pub open spec fn step_answer_matches(
    m: AtlasModel,
    g: Glyph,
    mb: Option<Bounds>,
    r: Result<(Metrics, TextureGlyph), CacheError>,
) -> bool {
    match r {
        Ok(pair) => pair.0.bounds == mb && resolve_step(m, g, mb).1 == Ok::<
            TextureGlyph,
            CacheError,
        >(pair.1),
        Err(_) => true,
    }
}

/// The state after one resolve with the given answer: what
/// [`resolve_step`] reaches on success, and the very same state on any
/// failure.
pub open spec fn step_state(
    m: AtlasModel,
    g: Glyph,
    mb: Option<Bounds>,
    r: Result<(Metrics, TextureGlyph), CacheError>,
) -> AtlasModel {
    if r is Ok {
        resolve_step(m, g, mb).0
    } else {
        m
    }
}

/// One resolved request as the orchestrator observes it: the answer is
/// consistent with the state, and the state moves as the answer says.
pub open spec fn step_matches(
    m: AtlasModel,
    g: Glyph,
    mb: Option<Bounds>,
    r: Result<(Metrics, TextureGlyph), CacheError>,
    m2: AtlasModel,
) -> bool {
    &&& step_answer_matches(m, g, mb, r)
    &&& m2 == step_state(m, g, mb, r)
}

/// The answers and the final state arise from resolving `requests` one
/// after another, starting from `m0`: each answer and each intermediate
/// state is the one [`resolve_step`] gives for the glyph and the bounds of
/// that request.
pub open spec fn resolve_trace(
    m0: AtlasModel,
    requests: Seq<(Glyph, Option<Bounds>)>,
    answers: Seq<Result<(Metrics, TextureGlyph), CacheError>>,
    m2: AtlasModel,
) -> bool
    decreases requests.len(),
{
    &&& answers.len() == requests.len()
    &&& if requests.len() == 0 {
        m2 == m0
    } else {
        &&& step_answer_matches(m0, requests[0].0, requests[0].1, answers[0])
        &&& resolve_trace(
            step_state(m0, requests[0].0, requests[0].1, answers[0]),
            requests.drop_first(),
            answers.drop_first(),
            m2,
        )
    }
}

/// A trace extends by one resolved request at its end.
pub proof fn lemma_trace_snoc(
    m0: AtlasModel,
    requests: Seq<(Glyph, Option<Bounds>)>,
    answers: Seq<Result<(Metrics, TextureGlyph), CacheError>>,
    m1: AtlasModel,
    g: Glyph,
    mb: Option<Bounds>,
    r: Result<(Metrics, TextureGlyph), CacheError>,
    m2: AtlasModel,
)
    requires
        resolve_trace(m0, requests, answers, m1),
        step_matches(m1, g, mb, r, m2),
    ensures
        resolve_trace(m0, requests.push((g, mb)), answers.push(r), m2),
    decreases requests.len(),
{
    if requests.len() == 0 {
        assert(m1 == m0);
        assert(requests.push((g, mb)).drop_first() =~= requests);
        assert(answers.push(r).drop_first() =~= answers);
        assert(requests.push((g, mb))[0] == (g, mb));
        assert(answers.push(r)[0] == r);
        assert(resolve_trace(m2, requests, answers, m2));
        assert(resolve_trace(
            step_state(m0, g, mb, r),
            requests.push((g, mb)).drop_first(),
            answers.push(r).drop_first(),
            m2,
        ));
        assert(resolve_trace(m0, requests.push((g, mb)), answers.push(r), m2));
    } else {
        let mid = step_state(m0, requests[0].0, requests[0].1, answers[0]);
        lemma_trace_snoc(mid, requests.drop_first(), answers.drop_first(), m1, g, mb, r, m2);
        assert(requests.push((g, mb))[0] == requests[0]);
        assert(answers.push(r)[0] == answers[0]);
        assert(requests.push((g, mb)).drop_first() =~= requests.drop_first().push((g, mb)));
        assert(answers.push(r).drop_first() =~= answers.drop_first().push(r));
        assert(resolve_trace(
            mid,
            requests.push((g, mb)).drop_first(),
            answers.push(r).drop_first(),
            m2,
        ));
        assert(resolve_trace(m0, requests.push((g, mb)), answers.push(r), m2));
    }
}

/// The state an atlas reaches by resolving a sequence of requests in order,
/// each request a glyph with the bounds its metrics reported.
pub open spec fn replay(m: AtlasModel, requests: Seq<(Glyph, Option<Bounds>)>) -> AtlasModel
    decreases requests.len(),
{
    if requests.len() == 0 {
        m
    } else {
        replay(resolve_step(m, requests[0].0, requests[0].1).0, requests.drop_first())
    }
}

/// Determinism after reset: two atlases over textures of equal dimensions,
/// however differently they were filled before being cleared, reach the
/// identical state — the identical layout — by replaying the identical
/// request sequence.
pub proof fn lemma_reset_replay_deterministic(
    m1: AtlasModel,
    m2: AtlasModel,
    requests: Seq<(Glyph, Option<Bounds>)>,
)
    requires
        m1.width == m2.width,
        m1.height == m2.height,
    ensures
        replay(reset_state(m1), requests) == replay(reset_state(m2), requests),
{
    assert(reset_state(m1) =~= reset_state(m2));
}

} // verus!
