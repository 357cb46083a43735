//! The cache: a prepared-text store, an encoding pool, usage counters, the
//! trim that bounds both stores, and the per-request session.
//!
//! Measuring a text is the caller's work. Opening a session is therefore two
//! steps: `session` looks the request up and says whether a measurement is
//! needed, and `complete_session` takes what the measurement gave.

use crate::encoding::{box_outline, Encoding, EncodingView, StreamOffsets, Style};
use crate::key::{cache_key, derive_encoding_key, derive_key, encoding_key, TextCacheKey};
use crate::store::{
    pool_entries, pool_get, pool_insert, pool_keys, pool_len, pool_new, pool_remove, text_entries,
    text_store_get, text_store_insert, text_store_keys, text_store_len, text_store_new,
    text_store_remove, Color, PreparedText, TextAreaConfig, TextBounds, TextMeasurement,
};
use dashmap::DashMap;
use std::collections::hash_map::RandomState;
use vstd::prelude::*;
use vstd::string::StringSliceAdditionalSpecFns;

verus! {

/// Most prepared texts that a trim leaves untouched.
pub const MAX_PREPARED_TEXTS: usize = 1000;

/// Number of prepared texts that a trim cuts down to.
pub const KEPT_PREPARED_TEXTS: usize = 800;

/// Most pooled encodings that a trim leaves untouched.
pub const MAX_POOLED_ENCODINGS: usize = 500;

/// Number of pooled encodings that a trim cuts down to.
pub const KEPT_POOLED_ENCODINGS: usize = 400;

/// Single-precision bit pattern of the number one.
pub const UNIT_SCALE: u32 = 0x3f80_0000;

/// Why a text could not be measured.
#[derive(Clone, Copy, Debug, PartialEq, Eq, Structural)]
pub enum TextSystemError {
    /// The text system could not be set up.
    SystemUnavailable,
    /// The text system could not measure the text.
    MeasurementFailed,
}

/// Usage counters. Each wraps to zero after `u64::MAX`.
#[derive(Clone, Copy, Debug, PartialEq, Eq, Structural)]
pub struct GlyphCacheStats {
    pub cache_hits: u64,
    pub cache_misses: u64,
    pub text_preparations: u64,
    pub encoding_reuses: u64,
}

/// Mathematical content of a [`GlyphCache`].
pub struct CacheView {
    pub texts: Map<(u64, u64, u32, u64), PreparedText>,
    pub pool: Map<u64, EncodingView>,
    pub stats: GlyphCacheStats,
    pub ticks: u64,
}

/// The cache itself.
pub struct GlyphCache {
    prepared_text_cache: DashMap<(u64, u64, u32, u64), PreparedText, RandomState>,
    encoding_pool: DashMap<u64, Encoding, RandomState>,
    performance_monitor: u64,
    stats: GlyphCacheStats,
}

/// A request bound to its key and its prepared text.
#[derive(Clone, Copy, Debug, PartialEq, Eq, Structural)]
pub struct GlyphCacheSession {
    pub style: Style,
    pub prepared_text: PreparedText,
    pub cache_key: TextCacheKey,
}

/// Outcome of looking a request up.
#[derive(Clone, Copy, Debug, PartialEq, Eq, Structural)]
pub enum SessionStart {
    /// The text was prepared before: the session is open.
    Ready(GlyphCacheSession),
    /// The text must be measured, and the session completed with the result.
    NeedsMeasurement(TextCacheKey),
}

/// Something that happens to a cache.
pub enum CacheEvent {
    Lookup(TextCacheKey),
    Preparation(TextCacheKey, PreparedText),
    Acquisition(u64),
    Emission(u64, EncodingView),
    Maintenance,
}

/// The counter value after `n`.
pub open spec fn next_count(n: u64) -> u64 {
    if n == u64::MAX {
        0
    } else {
        (n + 1) as u64
    }
}

pub fn bump(n: u64) -> (m: u64)
    ensures
        m == next_count(n),
{
    if n == u64::MAX {
        0
    } else {
        n + 1
    }
}

/// The prepared text made of a measurement: placed at the origin at scale one,
/// bounded by the measured box, white, with no preparation time on record.
pub open spec fn prepared_from(measurement: TextMeasurement) -> PreparedText {
    PreparedText {
        measurement,
        text_area_config: TextAreaConfig {
            position_x: 0,
            position_y: 0,
            scale: UNIT_SCALE,
            bounds: TextBounds {
                left: 0,
                top: 0,
                right: measurement.pixel_width,
                bottom: measurement.pixel_height,
            },
            default_color: Color { r: 255, g: 255, b: 255, a: 255 },
        },
        preparation_nanos: 0,
    }
}

pub fn prepare(measurement: TextMeasurement) -> (prepared: PreparedText)
    ensures
        prepared == prepared_from(measurement),
{
    PreparedText {
        measurement,
        text_area_config: TextAreaConfig {
            position_x: 0,
            position_y: 0,
            scale: UNIT_SCALE,
            bounds: TextBounds {
                left: 0,
                top: 0,
                right: measurement.pixel_width,
                bottom: measurement.pixel_height,
            },
            default_color: Color { r: 255, g: 255, b: 255, a: 255 },
        },
        preparation_nanos: 0,
    }
}

/// A store after a trim: with more than `limit` entries before, `keep` of
/// them are left, each as it was; otherwise nothing has changed.
pub open spec fn trimmed<K, V>(before: Map<K, V>, after: Map<K, V>, limit: nat, keep: nat) -> bool {
    if before.len() > limit {
        after.submap_of(before) && after.len() == keep
    } else {
        after == before
    }
}

impl CacheView {
    /// A cache that has seen nothing.
    pub open spec fn empty() -> CacheView {
        CacheView {
            texts: Map::empty(),
            pool: Map::empty(),
            stats: GlyphCacheStats {
                cache_hits: 0,
                cache_misses: 0,
                text_preparations: 0,
                encoding_reuses: 0,
            },
            ticks: 0,
        }
    }

    /// Both stores hold finitely many entries, and every pooled encoding is
    /// well formed.
    pub open spec fn wf(self) -> bool {
        &&& self.texts.dom().finite()
        &&& self.pool.dom().finite()
        &&& forall|k: u64| self.pool.dom().contains(k) ==> (#[trigger] self.pool[k]).wf()
    }

    /// The request under `key` finds a prepared text.
    pub open spec fn hits(self, key: TextCacheKey) -> bool {
        self.texts.dom().contains(key.spec_fields())
    }

    /// The cache after a lookup of `key`: one more hit, or one more miss.
    pub open spec fn after_lookup(self, key: TextCacheKey) -> CacheView {
        if self.hits(key) {
            CacheView {
                stats: GlyphCacheStats {
                    cache_hits: next_count(self.stats.cache_hits),
                    ..self.stats
                },
                ..self
            }
        } else {
            CacheView {
                stats: GlyphCacheStats {
                    cache_misses: next_count(self.stats.cache_misses),
                    ..self.stats
                },
                ..self
            }
        }
    }

    /// The cache after `prepared` was stored under `key`.
    pub open spec fn after_preparation(self, key: TextCacheKey, prepared: PreparedText) -> CacheView {
        CacheView {
            texts: self.texts.insert(key.spec_fields(), prepared),
            stats: GlyphCacheStats {
                text_preparations: next_count(self.stats.text_preparations),
                ..self.stats
            },
            ..self
        }
    }

    /// The cache after an encoding was asked for under pool key `k`: one more
    /// reuse where the pool has one, else a new empty encoding in the pool.
    pub open spec fn after_acquisition(self, k: u64) -> CacheView {
        if self.pool.dom().contains(k) {
            CacheView {
                stats: GlyphCacheStats {
                    encoding_reuses: next_count(self.stats.encoding_reuses),
                    ..self.stats
                },
                ..self
            }
        } else {
            CacheView { pool: self.pool.insert(k, EncodingView::empty()), ..self }
        }
    }

    /// The cache after the encoding under pool key `k` was acquired and
    /// rewritten to `emitted`.
    pub open spec fn after_emission(self, k: u64, emitted: EncodingView) -> CacheView {
        let acquired = self.after_acquisition(k);
        CacheView { pool: acquired.pool.insert(k, emitted), ..acquired }
    }

    /// `after` is what a trim may leave of this cache. Which entries of an
    /// overfull store stay is not fixed.
    pub open spec fn maintained_to(self, after: CacheView) -> bool {
        &&& after.stats == self.stats
        &&& after.ticks == next_count(self.ticks)
        &&& trimmed(
            self.texts,
            after.texts,
            MAX_PREPARED_TEXTS as nat,
            KEPT_PREPARED_TEXTS as nat,
        )
        &&& trimmed(
            self.pool,
            after.pool,
            MAX_POOLED_ENCODINGS as nat,
            KEPT_POOLED_ENCODINGS as nat,
        )
    }

    /// `after` is this cache after `event`.
    pub open spec fn steps_to(self, event: CacheEvent, after: CacheView) -> bool {
        match event {
            CacheEvent::Lookup(key) => after == self.after_lookup(key),
            CacheEvent::Preparation(key, prepared) => after == self.after_preparation(
                key,
                prepared,
            ),
            CacheEvent::Acquisition(k) => after == self.after_acquisition(k),
            CacheEvent::Emission(k, emitted) => after == self.after_emission(k, emitted),
            CacheEvent::Maintenance => self.maintained_to(after),
        }
    }
}

impl GlyphCacheSession {
    /// The session of a request under `key` and `style` with `prepared`.
    pub open spec fn of(key: TextCacheKey, style: Style, prepared: PreparedText) -> GlyphCacheSession {
        GlyphCacheSession { style, prepared_text: prepared, cache_key: key }
    }

    /// What this session emits: the outline of its measured box.
    pub open spec fn emitted(self) -> EncodingView {
        box_outline(
            self.style,
            self.prepared_text.measurement.content_width,
            self.prepared_text.measurement.content_height,
        )
    }

    /// The measurement of the session's text.
    pub fn measurement(&self) -> (m: &TextMeasurement)
        ensures
            *m == self.prepared_text.measurement,
    {
        &self.prepared_text.measurement
    }

    /// The time it took to prepare the text, in nanoseconds.
    pub fn preparation_time(&self) -> (nanos: u64)
        ensures
            nanos == self.prepared_text.preparation_nanos,
    {
        self.prepared_text.preparation_nanos
    }

    /// Hands out the pooled encoding of this session's key, as the pool holds
    /// it; where the pool has none, an empty one is made and pooled.
    pub fn get_encoding(&self, cache: &mut GlyphCache) -> (encoding: Encoding)
        requires
            old(cache).wf(),
        ensures
            final(cache).wf(),
            final(cache)@ == old(cache)@.after_acquisition(encoding_key(self.cache_key)),
            encoding.wf(),
            encoding@ == (if old(cache)@.pool.dom().contains(encoding_key(self.cache_key)) {
                old(cache)@.pool[encoding_key(self.cache_key)]
            } else {
                EncodingView::empty()
            }),
    {
        let encoding_key = derive_encoding_key(&self.cache_key);
        match pool_get(&cache.encoding_pool, encoding_key) {
            Some(pooled) => {
                cache.stats.encoding_reuses = bump(cache.stats.encoding_reuses);
                pooled
            },
            None => {
                let encoding = Encoding::new();
                pool_insert(&mut cache.encoding_pool, encoding_key, encoding.duplicate());
                encoding
            },
        }
    }

    /// Nothing to do: an encoding stays in the pool while it is handed out.
    pub fn return_encoding(&self, cache: &mut GlyphCache, encoding: Encoding)
        ensures
            *final(cache) == *old(cache),
    {
    }

    /// Acquires the pooled encoding of this session's key, rewrites it to the
    /// outline of the measured box, and returns it with its stream lengths.
    /// The pool holds the rewritten encoding afterwards.
    pub fn get_text_encoding(&self, cache: &mut GlyphCache) -> (out: (Encoding, StreamOffsets))
        requires
            old(cache).wf(),
        ensures
            final(cache).wf(),
            out.0.wf(),
            out.0@ == self.emitted(),
            out.1@ == out.0@.offsets(),
            final(cache)@ == old(cache)@.after_emission(
                encoding_key(self.cache_key),
                self.emitted(),
            ),
    {
        let mut encoding = self.get_encoding(cache);
        let stream_offsets = encoding.emit_box(
            &self.style,
            self.prepared_text.measurement.content_width,
            self.prepared_text.measurement.content_height,
        );
        let encoding_key = derive_encoding_key(&self.cache_key);
        pool_insert(&mut cache.encoding_pool, encoding_key, encoding.duplicate());
        (encoding, stream_offsets)
    }
}

/// Removes entries of the prepared-text store, in the order the store hands
/// its keys out, until `keep` are left.
fn trim_prepared_texts(
    store: &mut DashMap<(u64, u64, u32, u64), PreparedText, RandomState>,
    keep: usize,
)
    requires
        text_entries(*old(store)).dom().finite(),
        text_entries(*old(store)).len() > keep,
    ensures
        text_entries(*final(store)).dom().finite(),
        text_entries(*final(store)).submap_of(text_entries(*old(store))),
        text_entries(*final(store)).len() == keep,
{
    let ghost before = text_entries(*store);
    let keys = text_store_keys(store);
    let count = text_store_len(store);
    proof {
        keys@.unique_seq_to_set();
    }
    let excess = count - keep;
    let mut i: usize = 0;
    while i < excess
        invariant
            i <= excess,
            excess == count - keep,
            keys@.len() == count,
            keys@.no_duplicates(),
            text_entries(*store).dom().finite(),
            text_entries(*store).submap_of(before),
            text_entries(*store).len() == count - i,
            forall|j: int| i <= j < keys@.len() ==> text_entries(*store).dom().contains(#[trigger] keys@[j]),
        decreases excess - i,
    {
        let ghost held = text_entries(*store);
        text_store_remove(store, keys[i]);
        proof {
            assert(held.dom().contains(keys@[i as int]));
            assert(text_entries(*store).dom() =~= held.dom().remove(keys@[i as int]));
            assert forall|j: int| i + 1 <= j < keys@.len() implies text_entries(
                *store,
            ).dom().contains(#[trigger] keys@[j]) by {
                assert(keys@[j] != keys@[i as int]);
                assert(held.dom().contains(keys@[j]));
            }
        }
        i = i + 1;
    }
}

/// Removes entries of the encoding pool, in the order the pool hands its keys
/// out, until `keep` are left.
fn trim_pool(pool: &mut DashMap<u64, Encoding, RandomState>, keep: usize)
    requires
        pool_entries(*old(pool)).dom().finite(),
        pool_entries(*old(pool)).len() > keep,
    ensures
        pool_entries(*final(pool)).dom().finite(),
        pool_entries(*final(pool)).submap_of(pool_entries(*old(pool))),
        pool_entries(*final(pool)).len() == keep,
{
    let ghost before = pool_entries(*pool);
    let keys = pool_keys(pool);
    let count = pool_len(pool);
    proof {
        keys@.unique_seq_to_set();
    }
    let excess = count - keep;
    let mut i: usize = 0;
    while i < excess
        invariant
            i <= excess,
            excess == count - keep,
            keys@.len() == count,
            keys@.no_duplicates(),
            pool_entries(*pool).dom().finite(),
            pool_entries(*pool).submap_of(before),
            pool_entries(*pool).len() == count - i,
            forall|j: int| i <= j < keys@.len() ==> pool_entries(*pool).dom().contains(#[trigger] keys@[j]),
        decreases excess - i,
    {
        let ghost held = pool_entries(*pool);
        pool_remove(pool, keys[i]);
        proof {
            assert(held.dom().contains(keys@[i as int]));
            assert(pool_entries(*pool).dom() =~= held.dom().remove(keys@[i as int]));
            assert forall|j: int| i + 1 <= j < keys@.len() implies pool_entries(
                *pool,
            ).dom().contains(#[trigger] keys@[j]) by {
                assert(keys@[j] != keys@[i as int]);
                assert(held.dom().contains(keys@[j]));
            }
        }
        i = i + 1;
    }
}

impl GlyphCache {
    /// The cache's content.
    pub closed spec fn view(&self) -> CacheView {
        CacheView {
            texts: text_entries(self.prepared_text_cache),
            pool: pool_entries(self.encoding_pool),
            stats: self.stats,
            ticks: self.performance_monitor,
        }
    }

    /// The cache's content is well formed.
    pub open spec fn wf(&self) -> bool {
        self@.wf()
    }

    /// A cache that has seen nothing.
    pub fn new() -> (cache: GlyphCache)
        ensures
            cache@ == CacheView::empty(),
            cache.wf(),
    {
        let cache = GlyphCache {
            prepared_text_cache: text_store_new(),
            encoding_pool: pool_new(),
            performance_monitor: 0,
            stats: GlyphCacheStats {
                cache_hits: 0,
                cache_misses: 0,
                text_preparations: 0,
                encoding_reuses: 0,
            },
        };
        proof {
            assert(cache@.texts =~= Map::empty());
            assert(cache@.pool =~= Map::empty());
        }
        cache
    }

    /// The key of a request; `size` is in hundredths.
    pub fn generate_cache_key(&self, text: &str, font: &[u8], size: u32, style: &Style) -> (key:
        TextCacheKey)
        ensures
            key == cache_key(text.spec_bytes(), font@, size, *style),
    {
        derive_key(text, font, size, style)
    }

    /// Looks a request up. On a hit the session is open; on a miss the text is
    /// to be measured and the session completed with `complete_session`.
    pub fn session(&mut self, font: &[u8], size: u32, style: Style, text: &str) -> (start:
        SessionStart)
        requires
            old(self).wf(),
        ensures
            final(self).wf(),
            final(self)@ == old(self)@.after_lookup(
                cache_key(text.spec_bytes(), font@, size, style),
            ),
            start == (if old(self)@.hits(cache_key(text.spec_bytes(), font@, size, style)) {
                SessionStart::Ready(
                    GlyphCacheSession::of(
                        cache_key(text.spec_bytes(), font@, size, style),
                        style,
                        old(self)@.texts[cache_key(
                            text.spec_bytes(),
                            font@,
                            size,
                            style,
                        ).spec_fields()],
                    ),
                )
            } else {
                SessionStart::NeedsMeasurement(cache_key(text.spec_bytes(), font@, size, style))
            }),
    {
        let cache_key = self.generate_cache_key(text, font, size, &style);
        match text_store_get(&self.prepared_text_cache, cache_key.fields()) {
            Some(prepared_text) => {
                self.stats.cache_hits = bump(self.stats.cache_hits);
                SessionStart::Ready(GlyphCacheSession { style, prepared_text, cache_key })
            },
            None => {
                self.stats.cache_misses = bump(self.stats.cache_misses);
                SessionStart::NeedsMeasurement(cache_key)
            },
        }
    }

    /// Completes a session after a miss. A failed measurement is handed on and
    /// leaves the cache as it was; a measurement is stored under `key` as a
    /// prepared text and opens the session.
    pub fn complete_session(
        &mut self,
        key: TextCacheKey,
        style: Style,
        outcome: Result<TextMeasurement, TextSystemError>,
    ) -> (opened: Result<GlyphCacheSession, TextSystemError>)
        requires
            old(self).wf(),
        ensures
            final(self).wf(),
            match outcome {
                Ok(measurement) => {
                    &&& opened == Ok::<GlyphCacheSession, TextSystemError>(
                        GlyphCacheSession::of(key, style, prepared_from(measurement)),
                    )
                    &&& final(self)@ == old(self)@.after_preparation(
                        key,
                        prepared_from(measurement),
                    )
                },
                Err(error) => {
                    &&& opened == Err::<GlyphCacheSession, TextSystemError>(error)
                    &&& final(self)@ == old(self)@
                },
            },
    {
        match outcome {
            Ok(measurement) => {
                let prepared_text = prepare(measurement);
                text_store_insert(&mut self.prepared_text_cache, key.fields(), prepared_text);
                self.stats.text_preparations = bump(self.stats.text_preparations);
                Ok(GlyphCacheSession { style, prepared_text, cache_key: key })
            },
            Err(error) => Err(error),
        }
    }

    /// Trims both stores: a prepared-text store of more than 1000 entries is
    /// cut to 800, an encoding pool of more than 500 to 400. Counts one tick.
    pub fn maintain(&mut self)
        requires
            old(self).wf(),
        ensures
            final(self).wf(),
            old(self)@.maintained_to(final(self)@),
    {
        self.performance_monitor = bump(self.performance_monitor);
        if text_store_len(&self.prepared_text_cache) > MAX_PREPARED_TEXTS {
            trim_prepared_texts(&mut self.prepared_text_cache, KEPT_PREPARED_TEXTS);
        }
        if pool_len(&self.encoding_pool) > MAX_POOLED_ENCODINGS {
            trim_pool(&mut self.encoding_pool, KEPT_POOLED_ENCODINGS);
        }
        proof {
            assert forall|k: u64| self@.pool.dom().contains(k) implies (#[trigger] self@.pool[k]).wf() by {
                assert(old(self)@.pool.dom().contains(k));
                assert(self@.pool[k] == old(self)@.pool[k]);
            }
        }
    }

    /// The counters: hits, misses, preparations, reuses.
    pub fn stats(&self) -> (counts: (u64, u64, u64, u64))
        ensures
            counts == (
                self@.stats.cache_hits,
                self@.stats.cache_misses,
                self@.stats.text_preparations,
                self@.stats.encoding_reuses,
            ),
    {
        (
            self.stats.cache_hits,
            self.stats.cache_misses,
            self.stats.text_preparations,
            self.stats.encoding_reuses,
        )
    }

    /// The number of prepared texts in the store.
    pub fn prepared_text_count(&self) -> (n: usize)
        ensures
            n == self@.texts.len(),
    {
        text_store_len(&self.prepared_text_cache)
    }

    /// The number of encodings in the pool.
    pub fn pooled_encoding_count(&self) -> (n: usize)
        ensures
            n == self@.pool.len(),
    {
        pool_len(&self.encoding_pool)
    }

    /// The number of trims so far.
    pub fn maintenance_ticks(&self) -> (n: u64)
        ensures
            n == self@.ticks,
    {
        self.performance_monitor
    }
}

} // verus!
