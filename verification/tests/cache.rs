use glyph_cache::cache::{
    bump, prepare, GlyphCache, GlyphCacheSession, SessionStart, TextSystemError,
    KEPT_POOLED_ENCODINGS, KEPT_PREPARED_TEXTS, MAX_POOLED_ENCODINGS, MAX_PREPARED_TEXTS,
};
use glyph_cache::encoding::{Fill, PathTag, Stroke, Style, StyleTag};
use glyph_cache::key::{derive_encoding_key, derive_key, digest_of, TextCacheKey};
use glyph_cache::store::TextMeasurement;
use std::collections::hash_map::DefaultHasher;
use std::hash::Hasher;

const FONT: [u8; 4] = [0, 1, 0, 0];

fn measured(w: f32, h: f32) -> TextMeasurement {
    TextMeasurement {
        content_width: w.to_bits(),
        content_height: h.to_bits(),
        pixel_width: w as i32,
        pixel_height: h as i32,
    }
}

fn open(cache: &mut GlyphCache, size: u32, style: Style, text: &str, w: f32, h: f32) -> GlyphCacheSession {
    match cache.session(&FONT, size, style, text) {
        SessionStart::Ready(session) => session,
        SessionStart::NeedsMeasurement(key) => {
            cache.complete_session(key, style, Ok(measured(w, h))).unwrap()
        }
    }
}

fn fill() -> Style {
    Style::Fill(Fill::NonZero)
}

#[test]
fn digest_is_the_default_hasher_over_the_bytes() {
    let mut h = DefaultHasher::new();
    h.write(b"Hi");
    assert_eq!(digest_of(b"Hi"), h.finish());
    assert_ne!(digest_of(b"Hi"), digest_of(b"iH"));
    assert_ne!(digest_of(b""), digest_of(b"\0"));
}

#[test]
fn key_fields_are_independent_digests() {
    let key = derive_key("Hi", &FONT, 1600, &fill());
    assert_eq!(key.text_hash, digest_of(b"Hi"));
    assert_eq!(key.font_hash, digest_of(&FONT));
    assert_eq!(key.size, 1600);
    assert_eq!(key.style_hash, digest_of(&[0]));
    let stroked = derive_key("Hi", &FONT, 1600, &Style::Stroke(Stroke { width: 7 }));
    assert_eq!(stroked.style_hash, digest_of(&[1]));
    assert_eq!(key.fields(), (key.text_hash, key.font_hash, 1600, key.style_hash));
}

#[test]
fn equal_requests_have_equal_keys() {
    let a = derive_key("Hello", &FONT, 1234, &fill());
    let b = derive_key("Hello", &[0, 1, 0, 0], 1234, &Style::Fill(Fill::NonZero));
    assert_eq!(a, b);
    assert_eq!(GlyphCache::new().generate_cache_key("Hello", &FONT, 1234, &fill()), a);
}

#[test]
fn keys_tell_text_font_size_and_category_apart() {
    let base = derive_key("Hello", &FONT, 1234, &fill());
    assert_ne!(derive_key("Hellp", &FONT, 1234, &fill()), base);
    assert_ne!(derive_key("Hello", &[9], 1234, &fill()), base);
    assert_ne!(derive_key("Hello", &FONT, 1235, &fill()), base);
    assert_ne!(derive_key("Hello", &FONT, 1234, &Style::Stroke(Stroke { width: 1 })), base);
}

#[test]
fn stroke_parameters_are_not_part_of_the_key() {
    let thin = derive_key("x", &FONT, 100, &Style::Stroke(Stroke { width: 1.0f32.to_bits() }));
    let thick = derive_key("x", &FONT, 100, &Style::Stroke(Stroke { width: 9.0f32.to_bits() }));
    assert_eq!(thin, thick);
    let even_odd = derive_key("x", &FONT, 100, &Style::Fill(Fill::EvenOdd));
    assert_eq!(even_odd, derive_key("x", &FONT, 100, &fill()));
}

#[test]
fn encoding_key_digests_the_four_fields() {
    let key = TextCacheKey { text_hash: 1, font_hash: 2, size: 3, style_hash: 4 };
    let mut h = DefaultHasher::new();
    h.write(&1u64.to_le_bytes());
    h.write(&2u64.to_le_bytes());
    h.write(&3u32.to_le_bytes());
    h.write(&4u64.to_le_bytes());
    assert_eq!(derive_encoding_key(&key), h.finish());
    let other = TextCacheKey { text_hash: 1, font_hash: 2, size: 4, style_hash: 3 };
    assert_ne!(derive_encoding_key(&other), derive_encoding_key(&key));
    assert_eq!(derive_encoding_key(&key), derive_encoding_key(&key.clone()));
}

#[test]
fn bump_wraps() {
    assert_eq!(bump(0), 1);
    assert_eq!(bump(41), 42);
    assert_eq!(bump(u64::MAX), 0);
}

#[test]
fn prepared_text_is_anchored_at_the_origin() {
    let p = prepare(measured(17.75, 20.5));
    assert_eq!(p.measurement, measured(17.75, 20.5));
    assert_eq!((p.text_area_config.position_x, p.text_area_config.position_y), (0, 0));
    assert_eq!(p.text_area_config.scale, 1.0f32.to_bits());
    let b = p.text_area_config.bounds;
    assert_eq!((b.left, b.top, b.right, b.bottom), (0, 0, 17, 20));
    let c = p.text_area_config.default_color;
    assert_eq!((c.r, c.g, c.b, c.a), (255, 255, 255, 255));
    assert_eq!(p.preparation_nanos, 0);
}

#[test]
fn new_cache_has_seen_nothing() {
    let cache = GlyphCache::new();
    assert_eq!(cache.stats(), (0, 0, 0, 0));
    assert_eq!(cache.prepared_text_count(), 0);
    assert_eq!(cache.pooled_encoding_count(), 0);
    assert_eq!(cache.maintenance_ticks(), 0);
}

#[test]
fn first_request_misses_and_second_hits() {
    let mut cache = GlyphCache::new();
    let key = derive_key("Hi", &FONT, 1600, &fill());
    let start = cache.session(&FONT, 1600, fill(), "Hi");
    assert_eq!(start, SessionStart::NeedsMeasurement(key));
    assert_eq!(cache.stats(), (0, 1, 0, 0));
    assert_eq!(cache.prepared_text_count(), 0);
    let session = cache.complete_session(key, fill(), Ok(measured(14.0, 18.0))).unwrap();
    assert_eq!(session.cache_key, key);
    assert_eq!(session.style, fill());
    assert_eq!(session.prepared_text, prepare(measured(14.0, 18.0)));
    assert_eq!(*session.measurement(), measured(14.0, 18.0));
    assert_eq!(session.preparation_time(), 0);
    assert_eq!(cache.stats(), (0, 1, 1, 0));
    assert_eq!(cache.prepared_text_count(), 1);
    let again = cache.session(&FONT, 1600, fill(), "Hi");
    assert_eq!(again, SessionStart::Ready(session));
    assert_eq!(cache.stats(), (1, 1, 1, 0));
    assert_eq!(cache.prepared_text_count(), 1);
}

#[test]
fn failed_measurement_is_handed_on() {
    let mut cache = GlyphCache::new();
    let key = derive_key("Hi", &FONT, 1600, &fill());
    assert_eq!(cache.session(&FONT, 1600, fill(), "Hi"), SessionStart::NeedsMeasurement(key));
    assert_eq!(
        cache.complete_session(key, fill(), Err(TextSystemError::MeasurementFailed)),
        Err(TextSystemError::MeasurementFailed)
    );
    assert_eq!(
        cache.complete_session(key, fill(), Err(TextSystemError::SystemUnavailable)),
        Err(TextSystemError::SystemUnavailable)
    );
    assert_eq!(cache.stats(), (0, 1, 0, 0));
    assert_eq!(cache.prepared_text_count(), 0);
    assert_eq!(cache.session(&FONT, 1600, fill(), "Hi"), SessionStart::NeedsMeasurement(key));
    assert_eq!(cache.stats(), (0, 2, 0, 0));
}

#[test]
fn later_preparation_replaces_the_earlier() {
    let mut cache = GlyphCache::new();
    let key = derive_key("race", &FONT, 1000, &fill());
    cache.complete_session(key, fill(), Ok(measured(1.0, 2.0))).unwrap();
    cache.complete_session(key, fill(), Ok(measured(3.0, 4.0))).unwrap();
    assert_eq!(cache.prepared_text_count(), 1);
    assert_eq!(cache.stats(), (0, 0, 2, 0));
    match cache.session(&FONT, 1000, fill(), "race") {
        SessionStart::Ready(s) => assert_eq!(s.prepared_text, prepare(measured(3.0, 4.0))),
        SessionStart::NeedsMeasurement(_) => panic!("the text was prepared"),
    }
}

#[test]
fn hi_at_sixteen_emits_a_closed_box() {
    let mut cache = GlyphCache::new();
    let (w, h) = (15.5f32, 19.0f32);
    let session = open(&mut cache, 1600, fill(), "Hi", w, h);
    let (encoding, offsets) = session.get_text_encoding(&mut cache);
    assert_eq!(
        encoding.path_tags,
        vec![PathTag::Style, PathTag::LineTo, PathTag::LineTo, PathTag::LineToEnd, PathTag::Path]
    );
    assert_eq!(
        encoding.path_data,
        vec![0, 0, w.to_bits(), 0, w.to_bits(), h.to_bits(), 0, h.to_bits()]
    );
    assert_eq!(encoding.styles, vec![StyleTag::Fill(Fill::NonZero)]);
    assert_eq!((encoding.n_paths, encoding.n_path_segments), (1, 3));
    assert_eq!((offsets.path_tags, offsets.path_data, offsets.styles), (5, 8, 1));
    assert_eq!(offsets, encoding.stream_offsets());
}

#[test]
fn empty_text_emits_nothing() {
    let mut cache = GlyphCache::new();
    let session = open(&mut cache, 1600, fill(), "", 0.0, 0.0);
    let (encoding, offsets) = session.get_text_encoding(&mut cache);
    assert!(encoding.is_empty());
    assert!(encoding.path_data.is_empty() && encoding.styles.is_empty());
    assert_eq!(encoding.n_path_segments, 0);
    assert_eq!((offsets.path_tags, offsets.path_data, offsets.styles), (0, 0, 0));
    assert_eq!(cache.pooled_encoding_count(), 1);
}

#[test]
fn unrepresentable_stroke_emits_as_non_zero_fill() {
    let mut cache = GlyphCache::new();
    let stroke = Style::Stroke(Stroke { width: 0.0f32.to_bits() });
    let stroked = open(&mut cache, 1600, stroke, "Hi", 15.5, 19.0);
    let filled = open(&mut cache, 1600, fill(), "Hi", 15.5, 19.0);
    let (s, so) = stroked.get_text_encoding(&mut cache);
    let (f, fo) = filled.get_text_encoding(&mut cache);
    assert_eq!(s.styles, vec![StyleTag::Fill(Fill::NonZero)]);
    assert_eq!(s.path_tags, f.path_tags);
    assert_eq!(s.path_data, f.path_data);
    assert_eq!(so, fo);
}

#[test]
fn identical_requests_emit_identically() {
    let mut first = GlyphCache::new();
    let mut second = GlyphCache::new();
    open(&mut second, 900, fill(), "other", 3.0, 3.0).get_text_encoding(&mut second);
    let style = Style::Stroke(Stroke { width: 2.0f32.to_bits() });
    let a = open(&mut first, 1600, style, "Hi", 15.5, 19.0).get_text_encoding(&mut first);
    let b = open(&mut second, 1600, style, "Hi", 15.5, 19.0).get_text_encoding(&mut second);
    let c = open(&mut first, 1600, style, "Hi", 15.5, 19.0).get_text_encoding(&mut first);
    assert_eq!(a.0.path_tags, b.0.path_tags);
    assert_eq!(a.0.path_data, b.0.path_data);
    assert_eq!(a.0.styles, b.0.styles);
    assert_eq!(a.1, b.1);
    assert_eq!(a.0.path_data, c.0.path_data);
    assert_eq!(a.1, c.1);
}

#[test]
fn second_request_reuses_and_prepares_nothing() {
    let mut cache = GlyphCache::new();
    let session = open(&mut cache, 1600, fill(), "Hi", 15.5, 19.0);
    session.get_text_encoding(&mut cache);
    assert_eq!(cache.stats(), (0, 1, 1, 0));
    let again = open(&mut cache, 1600, fill(), "Hi", 99.0, 99.0);
    assert_eq!(again, session);
    again.get_text_encoding(&mut cache);
    assert_eq!(cache.stats(), (1, 1, 1, 1));
    assert_eq!(cache.pooled_encoding_count(), 1);
}

#[test]
fn pool_hands_out_what_was_emitted() {
    let mut cache = GlyphCache::new();
    let session = open(&mut cache, 1600, fill(), "Hi", 15.5, 19.0);
    let fresh = session.get_encoding(&mut cache);
    assert!(fresh.is_empty());
    assert_eq!(cache.pooled_encoding_count(), 1);
    assert_eq!(cache.stats().3, 0);
    let (emitted, _) = session.get_text_encoding(&mut cache);
    assert_eq!(cache.stats().3, 1);
    let pooled = session.get_encoding(&mut cache);
    assert_eq!(cache.stats().3, 2);
    assert_eq!(pooled.path_tags, emitted.path_tags);
    assert_eq!(pooled.path_data, emitted.path_data);
    assert_eq!(pooled.styles, emitted.styles);
    assert_eq!(pooled.path_data.len(), 8);
    session.return_encoding(&mut cache, pooled);
    assert_eq!(cache.pooled_encoding_count(), 1);
    assert_eq!(cache.stats().3, 2);
}

#[test]
fn hits_and_misses_count_the_lookups() {
    let mut cache = GlyphCache::new();
    let texts = ["a", "b", "a", "c", "b", "a", "", "a"];
    let mut calls: u64 = 0;
    for text in texts {
        open(&mut cache, 1200, fill(), text, 4.0, 5.0);
        calls += 1;
        cache.maintain();
        let (hits, misses, _, _) = cache.stats();
        assert_eq!(hits + misses, calls);
    }
    assert_eq!(cache.stats(), (4, 4, 4, 0));
}

#[test]
fn maintain_counts_a_tick_and_leaves_small_stores() {
    let mut cache = GlyphCache::new();
    for i in 0..10 {
        open(&mut cache, 1200, fill(), &format!("t{}", i), 4.0, 5.0).get_text_encoding(&mut cache);
    }
    let before = cache.stats();
    cache.maintain();
    cache.maintain();
    assert_eq!(cache.maintenance_ticks(), 2);
    assert_eq!(cache.prepared_text_count(), 10);
    assert_eq!(cache.pooled_encoding_count(), 10);
    assert_eq!(cache.stats(), before);
}

#[test]
fn maintain_cuts_an_overfull_text_store_to_the_kept_number() {
    let mut cache = GlyphCache::new();
    for i in 0..MAX_PREPARED_TEXTS {
        open(&mut cache, 1200, fill(), &format!("t{}", i), 4.0, 5.0);
    }
    cache.maintain();
    assert_eq!(cache.prepared_text_count(), 1000);
    open(&mut cache, 1200, fill(), "one more", 4.0, 5.0);
    assert_eq!(cache.prepared_text_count(), 1001);
    cache.maintain();
    assert_eq!(cache.prepared_text_count(), KEPT_PREPARED_TEXTS);
    assert_eq!(cache.prepared_text_count(), 800);
    let mut hits = 0;
    let before = cache.stats().0;
    for i in 0..MAX_PREPARED_TEXTS {
        if let SessionStart::Ready(s) = cache.session(&FONT, 1200, fill(), &format!("t{}", i)) {
            assert_eq!(s.prepared_text, prepare(measured(4.0, 5.0)));
            hits += 1;
        }
    }
    assert!(hits == 799 || hits == 800);
    assert_eq!(cache.stats().0, before + hits);
}

#[test]
fn maintain_cuts_an_overfull_pool_to_the_kept_number() {
    let mut cache = GlyphCache::new();
    for i in 0..MAX_POOLED_ENCODINGS {
        open(&mut cache, 1200, fill(), &format!("t{}", i), 4.0, 5.0).get_text_encoding(&mut cache);
    }
    cache.maintain();
    assert_eq!(cache.pooled_encoding_count(), 500);
    open(&mut cache, 1200, fill(), "one more", 4.0, 5.0).get_text_encoding(&mut cache);
    assert_eq!(cache.pooled_encoding_count(), 501);
    cache.maintain();
    assert_eq!(cache.pooled_encoding_count(), KEPT_POOLED_ENCODINGS);
    assert_eq!(cache.pooled_encoding_count(), 400);
    assert_eq!(cache.prepared_text_count(), 501);
}
