//! The two concurrent stores, kept in `dashmap::DashMap`, and what this
//! library takes for granted of them.

use crate::encoding::{Encoding, EncodingView};
use dashmap::DashMap;
use std::collections::hash_map::RandomState;
use vstd::prelude::*;

verus! {

/// Measured content box of a text. The width and height are single-precision
/// bit patterns; `pixel_width` and `pixel_height` are the same two numbers cut
/// to whole pixels.
#[derive(Clone, Copy, Debug, PartialEq, Eq, Structural)]
pub struct TextMeasurement {
    pub content_width: u32,
    pub content_height: u32,
    pub pixel_width: i32,
    pub pixel_height: i32,
}

/// Pixel rectangle that a text may be drawn into.
#[derive(Clone, Copy, Debug, PartialEq, Eq, Structural)]
pub struct TextBounds {
    pub left: i32,
    pub top: i32,
    pub right: i32,
    pub bottom: i32,
}

/// A colour, one byte per channel.
#[derive(Clone, Copy, Debug, PartialEq, Eq, Structural)]
pub struct Color {
    pub r: u8,
    pub g: u8,
    pub b: u8,
    pub a: u8,
}

/// Where and how a prepared text is placed. Position and scale are
/// single-precision bit patterns.
#[derive(Clone, Copy, Debug, PartialEq, Eq, Structural)]
pub struct TextAreaConfig {
    pub position_x: u32,
    pub position_y: u32,
    pub scale: u32,
    pub bounds: TextBounds,
    pub default_color: Color,
}

/// A measured text, ready to be placed. Never changed once stored.
#[derive(Clone, Copy, Debug, PartialEq, Eq, Structural)]
pub struct PreparedText {
    pub measurement: TextMeasurement,
    pub text_area_config: TextAreaConfig,
    pub preparation_nanos: u64,
}

/// `dashmap::DashMap`, carried as a value whose inside is not looked into.
#[verifier::external_type_specification]
#[verifier::external_body]
#[verifier::reject_recursive_types(K)]
#[verifier::reject_recursive_types(V)]
#[verifier::reject_recursive_types(S)]
pub struct ExDashMap<K, V, S>(DashMap<K, V, S>);

/// The entries of a prepared-text store. Nothing is known of them but what
/// the functions below say.
pub uninterp spec fn text_entries(
    store: DashMap<(u64, u64, u32, u64), PreparedText, RandomState>,
) -> Map<(u64, u64, u32, u64), PreparedText>;

/// The entries of an encoding pool, each encoding by its content. Nothing is
/// known of them but what the functions below say.
pub uninterp spec fn pool_entries(pool: DashMap<u64, Encoding, RandomState>) -> Map<
    u64,
    EncodingView,
>;

/// `DashMap::new`: a map without entries.
#[verifier::external_body]
pub(crate) fn text_store_new() -> (store: DashMap<(u64, u64, u32, u64), PreparedText, RandomState>)
    ensures
        text_entries(store).is_empty(),
{
    DashMap::new()
}

/// `DashMap::get`: the value stored under `key`, copied out, or `None` where
/// the map has no such key.
#[verifier::external_body]
pub(crate) fn text_store_get(
    store: &DashMap<(u64, u64, u32, u64), PreparedText, RandomState>,
    key: (u64, u64, u32, u64),
) -> (found: Option<PreparedText>)
    ensures
        found == (if text_entries(*store).dom().contains(key) {
            Some(text_entries(*store)[key])
        } else {
            None
        }),
{
    store.get(&key).map(|entry| *entry.value())
}

/// `DashMap::insert`: afterwards `key` maps to `value`, and every other key to
/// what it mapped to before.
#[verifier::external_body]
pub(crate) fn text_store_insert(
    store: &mut DashMap<(u64, u64, u32, u64), PreparedText, RandomState>,
    key: (u64, u64, u32, u64),
    value: PreparedText,
)
    ensures
        text_entries(*final(store)) == text_entries(*old(store)).insert(key, value),
{
    store.insert(key, value);
}

/// `DashMap::remove`: afterwards the map has no entry under `key`, and every
/// other entry as before.
#[verifier::external_body]
pub(crate) fn text_store_remove(
    store: &mut DashMap<(u64, u64, u32, u64), PreparedText, RandomState>,
    key: (u64, u64, u32, u64),
)
    ensures
        text_entries(*final(store)) == text_entries(*old(store)).remove(key),
{
    store.remove(&key);
}

/// `DashMap::len`: the number of entries.
#[verifier::external_body]
pub(crate) fn text_store_len(
    store: &DashMap<(u64, u64, u32, u64), PreparedText, RandomState>,
) -> (n: usize)
    ensures
        n == text_entries(*store).len(),
{
    store.len()
}

/// `DashMap::iter`: every key of the map once, in an order that is the map's
/// own and about which nothing is claimed.
#[verifier::external_body]
pub(crate) fn text_store_keys(
    store: &DashMap<(u64, u64, u32, u64), PreparedText, RandomState>,
) -> (keys: Vec<(u64, u64, u32, u64)>)
    ensures
        keys@.no_duplicates(),
        keys@.to_set() == text_entries(*store).dom(),
{
    store.iter().map(|entry| *entry.key()).collect()
}

/// `DashMap::new`: a map without entries.
#[verifier::external_body]
pub(crate) fn pool_new() -> (pool: DashMap<u64, Encoding, RandomState>)
    ensures
        pool_entries(pool).is_empty(),
{
    DashMap::new()
}

/// `DashMap::get`: a copy of the encoding stored under `key`, or `None` where
/// the map has no such key.
#[verifier::external_body]
pub(crate) fn pool_get(pool: &DashMap<u64, Encoding, RandomState>, key: u64) -> (found: Option<
    Encoding,
>)
    ensures
        pool_entries(*pool).dom().contains(key) <==> found is Some,
        found matches Some(encoding) ==> encoding@ == pool_entries(*pool)[key],
{
    pool.get(&key).map(|entry| entry.value().duplicate())
}

/// `DashMap::insert`: afterwards `key` maps to `value`, and every other key to
/// what it mapped to before.
#[verifier::external_body]
pub(crate) fn pool_insert(pool: &mut DashMap<u64, Encoding, RandomState>, key: u64, value: Encoding)
    ensures
        pool_entries(*final(pool)) == pool_entries(*old(pool)).insert(key, value@),
{
    pool.insert(key, value);
}

/// `DashMap::remove`: afterwards the map has no entry under `key`, and every
/// other entry as before.
#[verifier::external_body]
pub(crate) fn pool_remove(pool: &mut DashMap<u64, Encoding, RandomState>, key: u64)
    ensures
        pool_entries(*final(pool)) == pool_entries(*old(pool)).remove(key),
{
    pool.remove(&key);
}

/// `DashMap::len`: the number of entries.
#[verifier::external_body]
pub(crate) fn pool_len(pool: &DashMap<u64, Encoding, RandomState>) -> (n: usize)
    ensures
        n == pool_entries(*pool).len(),
{
    pool.len()
}

/// `DashMap::iter`: every key of the map once, in an order that is the map's
/// own and about which nothing is claimed.
#[verifier::external_body]
pub(crate) fn pool_keys(pool: &DashMap<u64, Encoding, RandomState>) -> (keys: Vec<u64>)
    ensures
        keys@.no_duplicates(),
        keys@.to_set() == pool_entries(*pool).dom(),
{
    pool.iter().map(|entry| *entry.key()).collect()
}

} // verus!
