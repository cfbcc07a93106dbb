//! Declarative feed extraction: a scrape configuration, the selector-driven
//! extraction of articles from fetched markup, a time-bounded response cache and
//! the registry that keeps loaded configurations fresh.

pub mod config;
pub mod error;
pub mod fetcher;
pub mod parser;
pub mod plugins;
pub mod text;
pub mod time;

pub use config::types::{
    default_cache_enabled, default_cache_ttl, default_encoding, default_feed_format,
    default_language, default_limit, default_method, default_timeout, default_version, Article,
    ArticleView, CacheConfig, ContentParserConfig, FeedConfig, HtmlSourceConfig, JsonSourceConfig,
    ListParserConfig, ParserConfig, PluginConfig, PluginMetadata, RequestConfig, RssFeed, RssFeedView,
    SourceConfig, XmlSourceConfig,
};
pub use error::RssHubError;
pub use time::Timestamp;
