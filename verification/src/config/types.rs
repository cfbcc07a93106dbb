//! The scrape configuration and the records produced from it.

use std::collections::HashMap;
use vstd::prelude::*;
use vstd::string::StringExecFns;
use crate::time::Timestamp;

verus! {

/// A complete scrape configuration for one site.
#[derive(Debug, Clone)]
pub struct PluginConfig {
    pub plugin: PluginMetadata,
    pub source: SourceConfig,
    pub parser: ParserConfig,
    pub cache: CacheConfig,
    pub feed: FeedConfig,
}

/// Who wrote a configuration and what it is for.
#[derive(Debug, Clone)]
pub struct PluginMetadata {
    pub name: String,
    pub description: String,
    pub version: String,
    pub author: Option<String>,
}

/// The version a configuration has when it names none.
pub fn default_version() -> (version: String)
    ensures
        version@ == "1.0.0"@,
{
    String::from_str("1.0.0")
}

/// Where the raw content comes from, by kind of content.
#[derive(Debug, Clone)]
pub enum SourceConfig {
    Html(HtmlSourceConfig),
    Json(JsonSourceConfig),
    Xml(XmlSourceConfig),
}

/// A page of markup.
#[derive(Debug, Clone)]
pub struct HtmlSourceConfig {
    pub url: String,
    pub encoding: String,
    pub user_agent: Option<String>,
    pub request: RequestConfig,
}

/// The character encoding assumed for a source that names none.
pub fn default_encoding() -> (encoding: String)
    ensures
        encoding@ == "utf-8"@,
{
    String::from_str("utf-8")
}

/// A JSON document.
#[derive(Debug, Clone)]
pub struct JsonSourceConfig {
    pub url: String,
    pub request: RequestConfig,
}

/// An XML document.
#[derive(Debug, Clone)]
pub struct XmlSourceConfig {
    pub url: String,
    pub request: RequestConfig,
}

/// How the request for the raw content is made.
#[derive(Debug, Clone)]
pub struct RequestConfig {
    pub method: String,
    pub headers: HashMap<String, String>,
    /// Seconds before the request is given up.
    pub timeout: u64,
}

impl Default for RequestConfig {
    fn default() -> (request: Self)
        ensures
            request.method@ == "GET"@,
            request.headers@ == Map::<String, String>::empty(),
            request.timeout == 30,
    {
        Self { method: default_method(), headers: HashMap::new(), timeout: default_timeout() }
    }
}

/// The HTTP method of a request that names none.
pub fn default_method() -> (method: String)
    ensures
        method@ == "GET"@,
{
    String::from_str("GET")
}

/// The seconds a request may take when it sets no limit.
pub fn default_timeout() -> (seconds: u64)
    ensures
        seconds == 30,
{
    30
}

impl SourceConfig {
    /// The address of the source, whatever its kind.
    pub open spec fn spec_url(&self) -> Seq<char> {
        match self {
            SourceConfig::Html(cfg) => cfg.url@,
            SourceConfig::Json(cfg) => cfg.url@,
            SourceConfig::Xml(cfg) => cfg.url@,
        }
    }

    /// The request settings of the source, whatever its kind.
    pub open spec fn spec_request(&self) -> RequestConfig {
        match self {
            SourceConfig::Html(cfg) => cfg.request,
            SourceConfig::Json(cfg) => cfg.request,
            SourceConfig::Xml(cfg) => cfg.request,
        }
    }

    /// The character encoding of the source: the configured one for markup,
    /// UTF-8 for the other kinds.
    pub open spec fn spec_encoding(&self) -> Seq<char> {
        match self {
            SourceConfig::Html(cfg) => cfg.encoding@,
            SourceConfig::Json(_) => "utf-8"@,
            SourceConfig::Xml(_) => "utf-8"@,
        }
    }

    /// The address of the source, whatever its kind.
    pub fn url(&self) -> (url: &String)
        ensures
            url@ == self.spec_url(),
    {
        match self {
            SourceConfig::Html(cfg) => &cfg.url,
            SourceConfig::Json(cfg) => &cfg.url,
            SourceConfig::Xml(cfg) => &cfg.url,
        }
    }

    /// The request settings of the source, whatever its kind.
    pub fn request(&self) -> (request: &RequestConfig)
        ensures
            *request == self.spec_request(),
    {
        match self {
            SourceConfig::Html(cfg) => &cfg.request,
            SourceConfig::Json(cfg) => &cfg.request,
            SourceConfig::Xml(cfg) => &cfg.request,
        }
    }

    /// The character encoding of the source: the configured one for markup,
    /// UTF-8 for the other kinds.
    pub fn encoding(&self) -> (encoding: String)
        ensures
            encoding@ == self.spec_encoding(),
    {
        match self {
            SourceConfig::Html(cfg) => cfg.encoding.clone(),
            SourceConfig::Json(_) => default_encoding(),
            SourceConfig::Xml(_) => default_encoding(),
        }
    }
}

/// The selector rules of a configuration.
#[derive(Debug, Clone)]
pub struct ParserConfig {
    pub list: ListParserConfig,
    pub content: Option<ContentParserConfig>,
}

/// Selectors for the repeating items of a list page and for the fields of each.
#[derive(Debug, Clone)]
pub struct ListParserConfig {
    pub selector: String,
    pub item_selector: Option<String>,
    pub link_selector: String,
    pub title_selector: String,
    pub description_selector: Option<String>,
    pub date_selector: Option<String>,
    pub date_format: Option<String>,
    pub author_selector: Option<String>,
    pub category_selector: Option<String>,
}

/// Selectors for the full text of an article page.
#[derive(Debug, Clone)]
pub struct ContentParserConfig {
    pub selector: String,
    pub content_selector: String,
    pub cleanup_selectors: Vec<String>,
}

/// Whether and for how long fetched content is kept.
#[derive(Debug, Clone)]
pub struct CacheConfig {
    pub enabled: bool,
    /// Seconds a fetched response stays usable.
    pub ttl: u64,
}

impl Default for CacheConfig {
    fn default() -> (cache: Self)
        ensures
            cache.enabled,
            cache.ttl == 3600,
    {
        Self { enabled: default_cache_enabled(), ttl: default_cache_ttl() }
    }
}

/// Caching is on unless a configuration turns it off.
pub fn default_cache_enabled() -> (enabled: bool)
    ensures
        enabled,
{
    true
}

/// The seconds a response is kept when a configuration sets no other span.
pub fn default_cache_ttl() -> (seconds: u64)
    ensures
        seconds == 3600,
{
    3600
}

/// What the produced feed says of itself.
#[derive(Debug, Clone)]
pub struct FeedConfig {
    pub title: String,
    pub description: String,
    pub link: String,
    pub language: String,
    pub format: String,
    /// The most articles one feed carries.
    pub limit: usize,
}

/// The language of a feed that names none.
pub fn default_language() -> (language: String)
    ensures
        language@ == "en"@,
{
    String::from_str("en")
}

/// The serialisation of a feed that names none.
pub fn default_feed_format() -> (format: String)
    ensures
        format@ == "rss"@,
{
    String::from_str("rss")
}

/// The most articles a feed carries when a configuration sets no other bound.
pub fn default_limit() -> (limit: usize)
    ensures
        limit == 20,
{
    20
}

/// The characters of an optional string.
pub open spec fn option_view(text: Option<String>) -> Option<Seq<char>> {
    match text {
        Some(s) => Some(s@),
        None => None,
    }
}

/// One entry of a feed.
#[derive(Debug, Clone)]
pub struct Article {
    pub title: String,
    pub link: String,
    pub description: Option<String>,
    pub content: Option<String>,
    pub pub_date: Option<Timestamp>,
    pub author: Option<String>,
    pub category: Option<String>,
    pub guid: Option<String>,
}

/// The mathematical content of an [`Article`].
pub struct ArticleView {
    pub title: Seq<char>,
    pub link: Seq<char>,
    pub description: Option<Seq<char>>,
    pub content: Option<Seq<char>>,
    pub pub_date: Option<Timestamp>,
    pub author: Option<Seq<char>>,
    pub category: Option<Seq<char>>,
    pub guid: Option<Seq<char>>,
}

impl ArticleView {
    /// The identifier of the entry: its own where it has one, its link otherwise.
    pub open spec fn effective_guid(self) -> Seq<char> {
        match self.guid {
            Some(guid) => guid,
            None => self.link,
        }
    }
}

impl View for Article {
    type V = ArticleView;

    open spec fn view(&self) -> ArticleView {
        ArticleView {
            title: self.title@,
            link: self.link@,
            description: option_view(self.description),
            content: option_view(self.content),
            pub_date: self.pub_date,
            author: option_view(self.author),
            category: option_view(self.category),
            guid: option_view(self.guid),
        }
    }
}

impl Article {
    /// The identifier of the entry: its own where it has one, its link otherwise.
    pub fn effective_guid(&self) -> (guid: &String)
        ensures
            guid@ == self@.effective_guid(),
    {
        match &self.guid {
            Some(guid) => guid,
            None => &self.link,
        }
    }
}

/// The character content of a list of articles.
pub open spec fn article_views(articles: Seq<Article>) -> Seq<ArticleView> {
    articles.map_values(|a: Article| a@)
}

/// A feed ready to be serialised.
#[derive(Debug, Clone)]
pub struct RssFeed {
    pub title: String,
    pub description: String,
    pub link: String,
    pub language: String,
    pub articles: Vec<Article>,
}

/// The mathematical content of an [`RssFeed`].
pub struct RssFeedView {
    pub title: Seq<char>,
    pub description: Seq<char>,
    pub link: Seq<char>,
    pub language: Seq<char>,
    pub articles: Seq<ArticleView>,
}

impl View for RssFeed {
    type V = RssFeedView;

    open spec fn view(&self) -> RssFeedView {
        RssFeedView {
            title: self.title@,
            description: self.description@,
            link: self.link@,
            language: self.language@,
            articles: article_views(self.articles@),
        }
    }
}

} // verus!
