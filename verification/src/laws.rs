//! What holds of the cache over whole histories and across requests.

use crate::cache::{
    next_count, CacheEvent, CacheView, GlyphCacheSession, KEPT_POOLED_ENCODINGS,
    KEPT_PREPARED_TEXTS, MAX_POOLED_ENCODINGS, MAX_PREPARED_TEXTS,
};
use crate::encoding::{box_outline, is_zero_bits, recorded_style, Fill, Stroke, Style, StyleTag};
use crate::key::{cache_key, encoding_key, TextCacheKey};
use crate::store::PreparedText;
use vstd::prelude::*;

verus! {

/// `states` is a life of a cache under `events`: it starts empty, and each
/// event leads from one state to the next.
pub open spec fn is_history(states: Seq<CacheView>, events: Seq<CacheEvent>) -> bool {
    &&& states.len() == events.len() + 1
    &&& states[0] == CacheView::empty()
    &&& forall|i: int|
        0 <= i < events.len() ==> (#[trigger] states[i]).steps_to(events[i], states[i + 1])
}

/// The number of lookups among `events`.
pub open spec fn lookups(events: Seq<CacheEvent>) -> nat
    decreases events.len(),
{
    if events.len() == 0 {
        0
    } else {
        lookups(events.drop_last()) + if events.last() is Lookup {
            1nat
        } else {
            0nat
        }
    }
}

proof fn lemma_lookups_of_prefix(states: Seq<CacheView>, events: Seq<CacheEvent>, n: nat)
    requires
        is_history(states, events),
        n <= events.len(),
        lookups(events.take(n as int)) <= u64::MAX,
    ensures
        states[n as int].stats.cache_hits + states[n as int].stats.cache_misses == lookups(
            events.take(n as int),
        ),
    decreases n,
{
    if n > 0 {
        let m = (n - 1) as nat;
        assert(events.take(n as int).drop_last() =~= events.take(m as int));
        assert(events.take(n as int).last() == events[m as int]);
        lemma_lookups_of_prefix(states, events, m);
        assert(states[m as int].steps_to(events[m as int], states[m as int + 1]));
    }
}

/// Over the life of a cache, hits and misses together number the lookups, as
/// long as there were no more lookups than a counter can hold.
pub proof fn lemma_hits_and_misses_count_lookups(states: Seq<CacheView>, events: Seq<CacheEvent>)
    requires
        is_history(states, events),
        lookups(events) <= u64::MAX,
    ensures
        states.last().stats.cache_hits + states.last().stats.cache_misses == lookups(events),
{
    assert(events.take(events.len() as int) =~= events);
    lemma_lookups_of_prefix(states, events, events.len());
}

/// Every event leaves a well-formed cache well formed, as long as what an
/// emission writes is well formed.
pub proof fn lemma_events_keep_well_formed(before: CacheView, event: CacheEvent, after: CacheView)
    requires
        before.wf(),
        before.steps_to(event, after),
        event matches CacheEvent::Emission(_, emitted) ==> emitted.wf(),
    ensures
        after.wf(),
{
    assert forall|k: u64| after.pool.dom().contains(k) implies (#[trigger] after.pool[k]).wf() by {
        match event {
            CacheEvent::Maintenance => {
                assert(before.pool.dom().contains(k));
                assert(after.pool[k] == before.pool[k]);
            },
            _ => {
                if before.pool.dom().contains(k) {
                    assert(before.pool[k].wf());
                }
            },
        }
    }
    match event {
        CacheEvent::Maintenance => {
            vstd::set_lib::lemma_len_subset(after.texts.dom(), before.texts.dom());
            vstd::set_lib::lemma_len_subset(after.pool.dom(), before.pool.dom());
        },
        _ => {},
    }
}

/// Every lookup counts once: as a hit where the key is stored, else as a
/// miss; it changes neither store.
pub proof fn lemma_lookup_counts_once(cache: CacheView, key: TextCacheKey)
    ensures
        cache.after_lookup(key).texts == cache.texts,
        cache.after_lookup(key).pool == cache.pool,
        cache.hits(key) ==> cache.after_lookup(key).stats.cache_hits == next_count(
            cache.stats.cache_hits,
        ) && cache.after_lookup(key).stats.cache_misses == cache.stats.cache_misses,
        !cache.hits(key) ==> cache.after_lookup(key).stats.cache_misses == next_count(
            cache.stats.cache_misses,
        ) && cache.after_lookup(key).stats.cache_hits == cache.stats.cache_hits,
{
}

/// A trim leaves at most 1000 prepared texts and at most 500 pooled
/// encodings; a store that was over its limit is left with 800 and 400.
/// What stays is as it was.
pub proof fn lemma_trim_bounds(before: CacheView, after: CacheView)
    requires
        before.wf(),
        before.maintained_to(after),
    ensures
        after.texts.len() <= MAX_PREPARED_TEXTS,
        after.pool.len() <= MAX_POOLED_ENCODINGS,
        before.texts.len() > MAX_PREPARED_TEXTS ==> after.texts.len() == KEPT_PREPARED_TEXTS,
        before.pool.len() > MAX_POOLED_ENCODINGS ==> after.pool.len() == KEPT_POOLED_ENCODINGS,
        after.texts.submap_of(before.texts),
        after.pool.submap_of(before.pool),
{
}

/// Two sessions of one style and one measured box emit the same encoding,
/// whatever the caches they run on hold.
pub proof fn lemma_equal_sessions_emit_equally(a: GlyphCacheSession, b: GlyphCacheSession)
    requires
        a.style == b.style,
        a.prepared_text.measurement.content_width == b.prepared_text.measurement.content_width,
        a.prepared_text.measurement.content_height == b.prepared_text.measurement.content_height,
    ensures
        a.emitted() == b.emitted(),
        a.emitted().offsets() == b.emitted().offsets(),
{
}

/// A request that was prepared and emitted once is, the second time, a hit
/// that prepares nothing and an acquisition that reuses the pooled encoding,
/// which still holds what was emitted.
pub proof fn lemma_second_request_reuses(
    cache: CacheView,
    text: Seq<u8>,
    font: Seq<u8>,
    size: u32,
    style: Style,
    prepared: PreparedText,
)
    ensures
        ({
            let key = cache_key(text, font, size, style);
            let session = GlyphCacheSession::of(key, style, prepared);
            let first = cache.after_lookup(key).after_preparation(key, prepared).after_emission(
                encoding_key(key),
                session.emitted(),
            );
            let looked_up = first.after_lookup(key);
            let second = looked_up.after_acquisition(encoding_key(key));
            &&& first.hits(key)
            &&& first.texts[key.spec_fields()] == prepared
            &&& looked_up.stats.cache_hits == next_count(first.stats.cache_hits)
            &&& looked_up.stats.cache_misses == first.stats.cache_misses
            &&& second.stats.text_preparations == first.stats.text_preparations
            &&& second.stats.encoding_reuses == next_count(first.stats.encoding_reuses)
            &&& second.pool == first.pool
            &&& second.pool[encoding_key(key)] == session.emitted()
        }),
{
}

/// The stream lengths of a box outline: none for a box of zero width and
/// height, and otherwise one style, a tag for the style, each segment and the
/// path's end, and two words for the start and for each segment.
pub proof fn lemma_box_outline_offsets(style: Style, width: u32, height: u32)
    ensures
        box_outline(style, width, height).offsets() == (if !is_zero_bits(width) {
            (5nat, 8nat, 1nat)
        } else if !is_zero_bits(height) {
            (4nat, 6nat, 1nat)
        } else {
            (0nat, 0nat, 0nat)
        }),
        box_outline(style, width, height).path_tags.len() == box_outline(
            style,
            width,
            height,
        ).styles.len() + box_outline(style, width, height).n_paths + box_outline(
            style,
            width,
            height,
        ).n_path_segments,
{
}

/// A stroke of zero width is recorded as a non-zero fill, and its outline is
/// that of the non-zero fill.
pub proof fn lemma_zero_stroke_degrades(width_bits: u32, width: u32, height: u32)
    requires
        is_zero_bits(width_bits),
    ensures
        recorded_style(Style::Stroke(Stroke { width: width_bits }))
            == StyleTag::Fill(Fill::NonZero),
        box_outline(Style::Stroke(Stroke { width: width_bits }), width, height)
            == box_outline(Style::Fill(Fill::NonZero), width, height),
{
}

} // verus!
