//! Cache keys: per-field digests of a request, and the pool key derived from
//! a whole cache key.

use crate::encoding::Style;
use std::collections::hash_map::DefaultHasher;
use std::hash::Hasher;
use vstd::bytes::{spec_u32_to_le_bytes, spec_u64_to_le_bytes, u32_to_le_bytes, u64_to_le_bytes};
use vstd::prelude::*;
use vstd::std_specs::hash::DefaultHasherAdditionalSpecFns;
use vstd::string::StringSliceAdditionalSpecFns;

verus! {

/// Identity of a request: digests of the text and of the font bytes, the size
/// in hundredths, and a digest of the style's category.
#[derive(Clone, Copy, Debug, PartialEq, Eq, Structural)]
pub struct TextCacheKey {
    pub text_hash: u64,
    pub font_hash: u64,
    pub size: u32,
    pub style_hash: u64,
}

impl TextCacheKey {
    /// The key's four fields in order.
    pub open spec fn spec_fields(&self) -> (u64, u64, u32, u64) {
        (self.text_hash, self.font_hash, self.size, self.style_hash)
    }

    #[verifier::when_used_as_spec(spec_fields)]
    pub fn fields(&self) -> (t: (u64, u64, u32, u64))
        ensures
            t == self.spec_fields(),
    {
        (self.text_hash, self.font_hash, self.size, self.style_hash)
    }
}

/// The digest of one run of bytes fed to a fresh default hasher.
pub open spec fn digest(bytes: Seq<u8>) -> u64 {
    DefaultHasher::spec_finish(seq![bytes])
}

/// The byte that stands for a style's category: fill or stroke.
pub open spec fn style_category(style: Style) -> u8 {
    match style {
        Style::Fill(_) => 0,
        Style::Stroke(_) => 1,
    }
}

/// The key of a request. Stroke parameters are not part of it.
pub open spec fn cache_key(text: Seq<u8>, font: Seq<u8>, size: u32, style: Style) -> TextCacheKey {
    TextCacheKey {
        text_hash: digest(text),
        font_hash: digest(font),
        size,
        style_hash: digest(seq![style_category(style)]),
    }
}

/// The pool key of a cache key: one digest over its four fields, each written
/// in little-endian order.
pub open spec fn encoding_key(key: TextCacheKey) -> u64 {
    DefaultHasher::spec_finish(
        seq![
            spec_u64_to_le_bytes(key.text_hash),
            spec_u64_to_le_bytes(key.font_hash),
            spec_u32_to_le_bytes(key.size),
            spec_u64_to_le_bytes(key.style_hash),
        ],
    )
}

pub fn digest_of(bytes: &[u8]) -> (d: u64)
    ensures
        d == digest(bytes@),
{
    let mut hasher = DefaultHasher::new();
    hasher.write(bytes);
    proof {
        assert(hasher@ =~= seq![bytes@]);
    }
    hasher.finish()
}

pub fn category_of(style: &Style) -> (c: u8)
    ensures
        c == style_category(*style),
{
    match style {
        Style::Fill(_) => 0,
        Style::Stroke(_) => 1,
    }
}

/// Derives the key of a request from its text, the font's bytes, the size in
/// hundredths and the style.
pub fn derive_key(text: &str, font: &[u8], size: u32, style: &Style) -> (key: TextCacheKey)
    ensures
        key == cache_key(text.spec_bytes(), font@, size, *style),
{
    let text_hash = digest_of(text.as_bytes());
    let font_hash = digest_of(font);
    let mut category: Vec<u8> = Vec::new();
    category.push(category_of(style));
    proof {
        assert(category@ =~= seq![style_category(*style)]);
    }
    let style_hash = digest_of(category.as_slice());
    TextCacheKey { text_hash, font_hash, size, style_hash }
}

/// Reduces a cache key to the 64-bit key of the encoding pool.
pub fn derive_encoding_key(key: &TextCacheKey) -> (k: u64)
    ensures
        k == encoding_key(*key),
{
    let mut hasher = DefaultHasher::new();
    let text = u64_to_le_bytes(key.text_hash);
    hasher.write(text.as_slice());
    let font = u64_to_le_bytes(key.font_hash);
    hasher.write(font.as_slice());
    let size = u32_to_le_bytes(key.size);
    hasher.write(size.as_slice());
    let style = u64_to_le_bytes(key.style_hash);
    hasher.write(style.as_slice());
    proof {
        assert(hasher@ =~= seq![
            spec_u64_to_le_bytes(key.text_hash),
            spec_u64_to_le_bytes(key.font_hash),
            spec_u32_to_le_bytes(key.size),
            spec_u64_to_le_bytes(key.style_hash),
        ]);
    }
    hasher.finish()
}

} // verus!
