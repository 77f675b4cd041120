//! Keeps a Chinese, an English and a Pinyin text field in step through a
//! translation backend, and answers repeated translations from a cache.
//!
//! `sync` decides which field is authoritative, which translations to ask
//! for and which replies to drop; `prompts` builds the request for each
//! direction; `cache_key` and `cache` give each request its key and decide
//! when the backend must be called. The caller performs the requests, the
//! store accesses and the timer, and hands the outcomes back.
pub mod cache;
pub mod cache_key;
pub mod prompts;
pub mod source;
pub mod sync;

pub use cache::{
    CacheEntry, CacheError, CacheStore, CachedQuery, QueryPhase, QueryStep, UpstreamError,
    CACHE_TTL_SECONDS,
};
pub use cache_key::{assemble_payload, cache_key, format_radix, hex_digest, payload_text};
pub use prompts::{
    chinese_to_english, chinese_to_pinyin, english_to_chinese, pinyin_to_chinese, query_openai,
    TranslationRequest, EXAMPLE_COUNT, MAX_TOKENS, MODEL,
};
pub use source::{route_of, Direction, Field, Source};
pub use sync::{DerivationRequest, SyncEngine, DEBOUNCE_MS, FALLBACK_TEXT};
