//! The registry of loaded configurations.
//!
//! The registry decides; its caller does the reading. A request for a plugin
//! comes with what the caller found out about the backing file, and the answer
//! says whether the cached configuration serves or the file has to be read.
//! What was read is then handed to the registry, which validates and keeps it.

use vstd::hash_map::StringHashMap;
use vstd::prelude::*;
use vstd::string::StringExecFns;
use crate::config::parser::{is_valid, loaded, plugin_names, ConfigParser, DirEntry};
use crate::config::types::{ArticleView, PluginConfig, RssFeed, RssFeedView};
use crate::error::{ErrorView, RssHubError};
use crate::parser::dom::parsed_document;
use crate::parser::html::{extraction, HtmlParser};
use crate::text::{is_sorted, views};
use crate::time::Timestamp;

verus! {

/// A configuration together with the time at which it was loaded.
#[derive(Debug, Clone)]
pub struct CachedPlugin {
    pub config: PluginConfig,
    pub loaded_at: Timestamp,
}

/// The loaded configurations, by plugin name.
pub type PluginCache = Map<Seq<char>, CachedPlugin>;

/// What a request for `name` finds, when the backing file was last modified at
/// `modified`, or does not exist: an error without a file; the cached
/// configuration when one is cached and is at least as recent as the file;
/// nothing otherwise, and the file has to be read.
pub open spec fn lookup_plugin(cache: PluginCache, name: Seq<char>, modified: Option<Timestamp>) -> Result<
    Option<PluginConfig>,
    ErrorView,
> {
    match modified {
        None => Err(ErrorView::PluginNotFound(name)),
        Some(mtime) => if cache.contains_key(name) && !cache[name].loaded_at.precedes(mtime) {
            Ok(Some(cache[name].config))
        } else {
            Ok(None)
        },
    }
}

/// Whether every cached configuration passes validation.
pub open spec fn all_valid(cache: PluginCache) -> bool {
    forall|name: Seq<char>| #[trigger] cache.contains_key(name) ==> is_valid(cache[name].config)
}

/// The cache after the document read for `name` at `now` was handed in: with
/// the configuration under `name` when the document yields a valid one,
/// unchanged otherwise.
pub open spec fn cache_after_load(
    cache: PluginCache,
    name: Seq<char>,
    document: Result<PluginConfig, RssHubError>,
    now: Timestamp,
) -> PluginCache {
    match loaded(document) {
        Ok(config) => cache.insert(name, CachedPlugin { config, loaded_at: now }),
        Err(_) => cache,
    }
}

/// A whole request for `name`: the cache it leaves and the answer it gives,
/// where `document` is what reading the backing file gives if it is read, and
/// `now` the time at which it is read.
pub open spec fn request(
    cache: PluginCache,
    name: Seq<char>,
    modified: Option<Timestamp>,
    document: Result<PluginConfig, RssHubError>,
    now: Timestamp,
) -> (PluginCache, Result<PluginConfig, ErrorView>) {
    match lookup_plugin(cache, name, modified) {
        Err(e) => (cache, Err(e)),
        Ok(Some(config)) => (cache, Ok(config)),
        Ok(None) => (cache_after_load(cache, name, document, now), loaded(document)),
    }
}

/// The content of a lookup's result.
pub open spec fn lookup_view(result: Result<Option<&PluginConfig>, RssHubError>) -> Result<
    Option<PluginConfig>,
    ErrorView,
> {
    match result {
        Ok(Some(config)) => Ok(Some(*config)),
        Ok(None) => Ok(None),
        Err(e) => Err(e@),
    }
}

/// The feed that a configuration makes of the articles found for it.
pub open spec fn feed_of(
    config: PluginConfig,
    found: Result<Seq<ArticleView>, ErrorView>,
) -> Result<RssFeedView, ErrorView> {
    match found {
        Ok(articles) => Ok(
            RssFeedView {
                title: config.feed.title@,
                description: config.feed.description@,
                link: config.feed.link@,
                language: config.feed.language@,
                articles,
            },
        ),
        Err(e) => Err(e),
    }
}

/// The content of a feed result.
pub open spec fn feed_view(result: Result<RssFeed, RssHubError>) -> Result<RssFeedView, ErrorView> {
    match result {
        Ok(feed) => Ok(feed@),
        Err(e) => Err(e@),
    }
}

/// Keeps the most recently loaded configuration of every plugin and decides
/// when a configuration has to be read again.
pub struct PluginRegistry {
    config_parser: ConfigParser,
    plugin_cache: StringHashMap<CachedPlugin>,
}

impl View for PluginRegistry {
    type V = PluginCache;

    closed spec fn view(&self) -> PluginCache {
        self.plugin_cache@
    }
}

impl PluginRegistry {
    #[verifier::type_invariant]
    spec fn holds_valid_configurations(&self) -> bool {
        all_valid(self.plugin_cache@)
    }

    /// The directory under which the registry's configurations are stored.
    pub closed spec fn configs_dir(&self) -> Seq<char> {
        self.config_parser.configs_dir@
    }

    /// A registry for the configurations under `configs_dir`, with nothing
    /// loaded yet.
    pub fn new(configs_dir: String) -> (registry: Self)
        ensures
            registry@ == PluginCache::empty(),
            registry.configs_dir() == configs_dir@,
    {
        Self { config_parser: ConfigParser::new(configs_dir), plugin_cache: StringHashMap::new() }
    }

    /// The parser that locates and validates this registry's configurations.
    pub fn config_parser(&self) -> (parser: &ConfigParser)
        ensures
            parser.configs_dir@ == self.configs_dir(),
    {
        &self.config_parser
    }

    /// Answers a request for the plugin `name`, whose backing file was last
    /// modified at `modified`, or does not exist. `Ok(None)` says that the file
    /// has to be read and handed to [`PluginRegistry::store_plugin`].
    pub fn get_plugin(&self, name: &str, modified: Option<Timestamp>) -> (found: Result<
        Option<&PluginConfig>,
        RssHubError,
    >)
        ensures
            lookup_view(found) == lookup_plugin(self@, name@, modified),
            found matches Ok(Some(config)) ==> is_valid(*config),
    {
        proof {
            use_type_invariant(&*self);
        }
        let mtime = match modified {
            None => {
                return Err(RssHubError::PluginNotFound(String::from_str(name)));
            },
            Some(mtime) => mtime,
        };
        match self.plugin_cache.get(name) {
            Some(cached) => {
                if cached.loaded_at.is_at_least(&mtime) {
                    Ok(Some(&cached.config))
                } else {
                    Ok(None)
                }
            },
            None => Ok(None),
        }
    }

    /// Takes in what reading and deserialising the backing file of `name` gave
    /// at `now`. A valid configuration replaces whatever was cached under
    /// `name`; anything else is reported and leaves the cache as it was.
    pub fn store_plugin(
        &mut self,
        name: &str,
        document: Result<PluginConfig, RssHubError>,
        now: Timestamp,
    ) -> (stored: Result<(), RssHubError>)
        ensures
            final(self)@ == cache_after_load(old(self)@, name@, document, now),
            final(self).configs_dir() == old(self).configs_dir(),
            match loaded(document) {
                Ok(_) => stored is Ok,
                Err(e) => stored is Err && stored->Err_0@ == e,
            },
    {
        proof {
            use_type_invariant(&*self);
        }
        match self.config_parser.load_plugin(document) {
            Ok(config) => {
                let mut cache = StringHashMap::new();
                std::mem::swap(&mut cache, &mut self.plugin_cache);
                cache.insert(String::from_str(name), CachedPlugin { config, loaded_at: now });
                self.plugin_cache = cache;
                Ok(())
            },
            Err(e) => Err(e),
        }
    }

    /// The configuration cached under `name`, whatever its age.
    pub fn cached_plugin(&self, name: &str) -> (cached: Option<&PluginConfig>)
        ensures
            match cached {
                Some(config) => self@.contains_key(name@) && *config == self@[name@].config
                    && is_valid(*config),
                None => !self@.contains_key(name@),
            },
    {
        proof {
            use_type_invariant(&*self);
        }
        match self.plugin_cache.get(name) {
            Some(cached) => Some(&cached.config),
            None => None,
        }
    }

    /// Makes the feed of a configuration out of the raw content fetched for
    /// it. Nothing of the registry is read: no lock on it need be held. Relative links are resolved against the address of the source; the
    /// feed carries at most as many articles as the configuration allows.
    pub fn execute_plugin(config: &PluginConfig, html: &str) -> (feed: Result<
        RssFeed,
        RssHubError,
    >)
        ensures
            feed_view(feed) == feed_of(
                *config,
                extraction(
                    &parsed_document(html@),
                    config.parser.list,
                    config.source.spec_url(),
                    config.feed.limit as nat,
                ),
            ),
    {
        let base_url = config.source.url();
        match HtmlParser::parse(html, &config.parser, base_url.as_str(), config.feed.limit) {
            Ok(articles) => Ok(
                RssFeed {
                    title: config.feed.title.clone(),
                    description: config.feed.description.clone(),
                    link: config.feed.link.clone(),
                    language: config.feed.language.clone(),
                    articles,
                },
            ),
            Err(e) => Err(e),
        }
    }

    /// The names of the configurations in a listing of the registry's
    /// directory, sorted.
    pub fn list_plugins(&self, entries: &Vec<DirEntry>) -> (names: Vec<String>)
        ensures
            views(names@).to_multiset() == plugin_names(entries@).to_multiset(),
            is_sorted(views(names@)),
    {
        self.config_parser.list_plugins(entries)
    }

    /// Forgets the configuration cached under `name`.
    pub fn invalidate_plugin(&mut self, name: &str)
        ensures
            final(self)@ == old(self)@.remove(name@),
            final(self).configs_dir() == old(self).configs_dir(),
    {
        proof {
            use_type_invariant(&*self);
        }
        let mut cache = StringHashMap::new();
        std::mem::swap(&mut cache, &mut self.plugin_cache);
        cache.remove(name);
        self.plugin_cache = cache;
    }

    /// Forgets every cached configuration.
    pub fn invalidate_all(&mut self)
        ensures
            final(self)@ == PluginCache::empty(),
            final(self).configs_dir() == old(self).configs_dir(),
    {
        self.plugin_cache = StringHashMap::new();
    }
}

/// A cache of valid configurations stays one, whatever is requested and
/// whatever the backing file holds.
pub proof fn lemma_cache_stays_valid(
    cache: PluginCache,
    name: Seq<char>,
    modified: Option<Timestamp>,
    document: Result<PluginConfig, RssHubError>,
    now: Timestamp,
)
    requires
        all_valid(cache),
    ensures
        all_valid(request(cache, name, modified, document, now).0),
        request(cache, name, modified, document, now).1 matches Ok(config) ==> is_valid(config),
        all_valid(cache.remove(name)),
        all_valid(PluginCache::empty()),
{
}

/// The first request for a plugin returns the configuration as it was just
/// loaded, and a request that follows at once returns the same.
pub proof fn lemma_first_read_is_coherent(
    cache: PluginCache,
    name: Seq<char>,
    modified: Timestamp,
    config: PluginConfig,
    now: Timestamp,
)
    requires
        !cache.contains_key(name),
        is_valid(config),
        !now.precedes(modified),
    ensures
        request(cache, name, Some(modified), Ok(config), now).1 == loaded(Ok(config)),
        loaded(Ok(config)) == Ok::<PluginConfig, ErrorView>(config),
        lookup_plugin(request(cache, name, Some(modified), Ok(config), now).0, name, Some(modified))
            == Ok::<Option<PluginConfig>, ErrorView>(Some(config)),
{
}

/// While the backing file is no newer than the cached configuration, a request
/// returns the cached configuration whatever the file holds, and changes
/// nothing.
pub proof fn lemma_unchanged_file_is_not_read(
    cache: PluginCache,
    name: Seq<char>,
    modified: Timestamp,
    document: Result<PluginConfig, RssHubError>,
    now: Timestamp,
)
    requires
        cache.contains_key(name),
        !cache[name].loaded_at.precedes(modified),
    ensures
        request(cache, name, Some(modified), document, now) == (
            cache,
            Ok::<PluginConfig, ErrorView>(cache[name].config),
        ),
{
}

/// Once the backing file is newer than the cached configuration, a request
/// returns what the file holds now and caches it with the time of the reload.
pub proof fn lemma_newer_file_is_reloaded(
    cache: PluginCache,
    name: Seq<char>,
    modified: Timestamp,
    config: PluginConfig,
    now: Timestamp,
)
    requires
        cache.contains_key(name),
        cache[name].loaded_at.precedes(modified),
        is_valid(config),
    ensures
        request(cache, name, Some(modified), Ok(config), now).1 == Ok::<PluginConfig, ErrorView>(
            config,
        ),
        request(cache, name, Some(modified), Ok(config), now).0 == cache.insert(
            name,
            CachedPlugin { config, loaded_at: now },
        ),
{
}

/// A configuration that fails validation is reported with the error of the
/// first rule it breaks and is not cached.
pub proof fn lemma_invalid_configuration_is_not_cached(
    cache: PluginCache,
    name: Seq<char>,
    modified: Timestamp,
    config: PluginConfig,
    now: Timestamp,
)
    requires
        !is_valid(config),
        lookup_plugin(cache, name, Some(modified)) == Ok::<Option<PluginConfig>, ErrorView>(None),
    ensures
        request(cache, name, Some(modified), Ok(config), now).0 == cache,
        request(cache, name, Some(modified), Ok(config), now).1 is Err,
        config.feed.title@.len() == 0 ==> request(cache, name, Some(modified), Ok(config), now).1
            == Err::<PluginConfig, ErrorView>(ErrorView::Config("Feed title cannot be empty"@)),
        config.feed.title@.len() > 0 && config.feed.link@.len() == 0 ==> request(
            cache,
            name,
            Some(modified),
            Ok(config),
            now,
        ).1 == Err::<PluginConfig, ErrorView>(ErrorView::Config("Feed link cannot be empty"@)),
        config.feed.title@.len() > 0 && config.feed.link@.len() > 0 ==> request(
            cache,
            name,
            Some(modified),
            Ok(config),
            now,
        ).1 == Err::<PluginConfig, ErrorView>(ErrorView::InvalidUrl(config.source.spec_url())),
{
}

/// After a plugin was invalidated, the next request for it reads the file
/// again, however old the file is.
pub proof fn lemma_invalidated_plugin_is_reloaded(
    cache: PluginCache,
    name: Seq<char>,
    modified: Timestamp,
)
    ensures
        lookup_plugin(cache.remove(name), name, Some(modified)) == Ok::<
            Option<PluginConfig>,
            ErrorView,
        >(None),
        lookup_plugin(PluginCache::empty(), name, Some(modified)) == Ok::<
            Option<PluginConfig>,
            ErrorView,
        >(None),
{
}

} // verus!
