use rust_rsshub::config::parser::DirEntry;
use rust_rsshub::plugins::PluginRegistry;
use rust_rsshub::{
    CacheConfig, FeedConfig, HtmlSourceConfig, ListParserConfig, ParserConfig, PluginConfig,
    PluginMetadata, RequestConfig, RssHubError, SourceConfig, Timestamp,
};

fn config(description: &str, url: &str, title: &str, limit: usize) -> PluginConfig {
    PluginConfig {
        plugin: PluginMetadata {
            name: "news".to_string(),
            description: description.to_string(),
            version: "1.0.0".to_string(),
            author: None,
        },
        source: SourceConfig::Html(HtmlSourceConfig {
            url: url.to_string(),
            encoding: "utf-8".to_string(),
            user_agent: None,
            request: RequestConfig::default(),
        }),
        parser: ParserConfig {
            list: ListParserConfig {
                selector: ".post".to_string(),
                item_selector: None,
                link_selector: "a".to_string(),
                title_selector: "h2".to_string(),
                description_selector: None,
                date_selector: None,
                date_format: None,
                author_selector: None,
                category_selector: None,
            },
            content: None,
        },
        cache: CacheConfig::default(),
        feed: FeedConfig {
            title: title.to_string(),
            description: "All the news".to_string(),
            link: "https://example.com".to_string(),
            language: "en".to_string(),
            format: "rss".to_string(),
            limit,
        },
    }
}

fn at(secs: i64) -> Timestamp {
    Timestamp { secs, nanos: 0 }
}

#[test]
fn test_registry_creation() {
    let registry = PluginRegistry::new("/tmp".to_string());
    assert_eq!(registry.config_parser().configs_dir, "/tmp");
    assert!(registry.cached_plugin("news").is_none());
}

#[test]
fn test_plugin_not_found() {
    let registry = PluginRegistry::new("/tmp".to_string());
    let result = registry.get_plugin("nonexistent", None);
    assert!(result.is_err());
    match result {
        Err(RssHubError::PluginNotFound(name)) => assert_eq!(name, "nonexistent"),
        _ => panic!("expected PluginNotFound"),
    }
}

#[test]
fn test_list_plugins() {
    let registry = PluginRegistry::new("/tmp".to_string());
    let entries = vec![
        DirEntry { file_name: "b.yaml".to_string(), is_file: true },
        DirEntry { file_name: "a.yml".to_string(), is_file: true },
        DirEntry { file_name: ".hidden.yml".to_string(), is_file: true },
    ];
    assert_eq!(registry.list_plugins(&entries), vec!["a".to_string(), "b".to_string()]);
}

#[test]
fn test_invalidate_plugin() {
    let mut registry = PluginRegistry::new("/tmp".to_string());
    registry.invalidate_plugin("test");
    assert!(registry.cached_plugin("test").is_none());
}

#[test]
fn test_invalidate_all() {
    let mut registry = PluginRegistry::new("/tmp".to_string());
    registry.invalidate_all();
    assert!(registry.cached_plugin("test").is_none());
}

#[test]
fn test_first_read_returns_what_was_loaded() {
    let mut registry = PluginRegistry::new("/tmp".to_string());
    assert!(matches!(registry.get_plugin("news", Some(at(100))), Ok(None)));

    let loaded = config("first", "https://example.com", "News", 20);
    registry.store_plugin("news", Ok(loaded), at(100)).unwrap();

    let served = registry.get_plugin("news", Some(at(100))).unwrap().unwrap();
    assert_eq!(served.plugin.description, "first");
    assert_eq!(served.feed.title, "News");
}

#[test]
fn test_unchanged_file_is_served_from_the_cache() {
    let mut registry = PluginRegistry::new("/tmp".to_string());
    registry.store_plugin("news", Ok(config("first", "https://example.com", "News", 20)), at(200)).unwrap();

    for mtime in [at(0), at(199), at(200), Timestamp { secs: 199, nanos: 999_999_999 }] {
        let served = registry.get_plugin("news", Some(mtime)).unwrap();
        assert_eq!(served.unwrap().plugin.description, "first");
    }
}

#[test]
fn test_newer_file_is_reloaded() {
    let mut registry = PluginRegistry::new("/tmp".to_string());
    registry.store_plugin("news", Ok(config("first", "https://example.com", "News", 20)), at(200)).unwrap();

    let newer = Timestamp { secs: 200, nanos: 1 };
    assert!(matches!(registry.get_plugin("news", Some(newer)), Ok(None)));
    assert!(matches!(registry.get_plugin("news", Some(at(201))), Ok(None)));

    registry.store_plugin("news", Ok(config("second", "https://example.com", "News", 20)), at(300)).unwrap();
    let served = registry.get_plugin("news", Some(at(201))).unwrap().unwrap();
    assert_eq!(served.plugin.description, "second");
}

#[test]
fn test_invalid_configuration_is_not_cached() {
    let mut registry = PluginRegistry::new("/tmp".to_string());

    let no_title = registry.store_plugin("news", Ok(config("x", "https://example.com", "", 20)), at(1));
    match no_title {
        Err(RssHubError::Config(msg)) => assert_eq!(msg, "Feed title cannot be empty"),
        other => panic!("unexpected result: {:?}", other),
    }
    assert!(registry.cached_plugin("news").is_none());

    let mut no_link = config("x", "https://example.com", "News", 20);
    no_link.feed.link = String::new();
    match registry.store_plugin("news", Ok(no_link), at(1)) {
        Err(RssHubError::Config(msg)) => assert_eq!(msg, "Feed link cannot be empty"),
        other => panic!("unexpected result: {:?}", other),
    }
    assert!(registry.cached_plugin("news").is_none());

    match registry.store_plugin("news", Ok(config("x", "example.com/no-scheme", "News", 20)), at(1)) {
        Err(RssHubError::InvalidUrl(url)) => assert_eq!(url, "example.com/no-scheme"),
        other => panic!("unexpected result: {:?}", other),
    }
    assert!(registry.cached_plugin("news").is_none());
    assert!(matches!(registry.get_plugin("news", Some(at(0))), Ok(None)));
}

#[test]
fn test_failed_reload_keeps_the_old_configuration() {
    let mut registry = PluginRegistry::new("/tmp".to_string());
    registry.store_plugin("news", Ok(config("first", "https://example.com", "News", 20)), at(10)).unwrap();

    let broken = registry.store_plugin("news", Ok(config("second", "nope", "News", 20)), at(20));
    assert!(matches!(broken, Err(RssHubError::InvalidUrl(_))));
    let unreadable =
        registry.store_plugin("news", Err(RssHubError::InvalidYaml("bad indent".to_string())), at(30));
    match unreadable {
        Err(RssHubError::InvalidYaml(msg)) => assert_eq!(msg, "bad indent"),
        other => panic!("unexpected result: {:?}", other),
    }
    assert_eq!(registry.cached_plugin("news").unwrap().plugin.description, "first");
    assert!(registry.get_plugin("news", Some(at(10))).unwrap().is_some());
}

#[test]
fn test_invalidation_forces_a_reload() {
    let mut registry = PluginRegistry::new("/tmp".to_string());
    registry.store_plugin("a", Ok(config("a", "https://example.com", "A", 20)), at(10)).unwrap();
    registry.store_plugin("b", Ok(config("b", "https://example.com", "B", 20)), at(10)).unwrap();

    registry.invalidate_plugin("a");
    assert!(matches!(registry.get_plugin("a", Some(at(0))), Ok(None)));
    assert!(registry.get_plugin("b", Some(at(0))).unwrap().is_some());

    registry.invalidate_all();
    assert!(matches!(registry.get_plugin("b", Some(at(0))), Ok(None)));
    assert!(matches!(registry.get_plugin("b", None), Err(RssHubError::PluginNotFound(_))));
}

#[test]
fn test_missing_file_wins_over_a_cached_configuration() {
    let mut registry = PluginRegistry::new("/tmp".to_string());
    registry.store_plugin("news", Ok(config("first", "https://example.com", "News", 20)), at(10)).unwrap();
    assert!(matches!(registry.get_plugin("news", None), Err(RssHubError::PluginNotFound(_))));
    assert!(registry.cached_plugin("news").is_some());
}

#[test]
fn test_execute_plugin_assembles_the_feed() {
    let spec = config("news", "https://example.com/list/", "News", 2);
    let html = r#"<html><body>
        <div class="post"><h2>One</h2><a href="/1">more</a></div>
        <div class="post"><h2></h2><a href="/skipped">more</a></div>
        <div class="post"><h2>Two</h2><a href="two">more</a></div>
        <div class="post"><h2>Three</h2><a href="/3">more</a></div>
    </body></html>"#;

    let feed = PluginRegistry::execute_plugin(&spec, html).unwrap();

    assert_eq!(feed.title, "News");
    assert_eq!(feed.description, "All the news");
    assert_eq!(feed.link, "https://example.com");
    assert_eq!(feed.language, "en");
    assert_eq!(feed.articles.len(), 2);
    assert_eq!(feed.articles[0].title, "One");
    assert_eq!(feed.articles[0].link, "https://example.com/list/1");
    assert_eq!(feed.articles[1].title, "Two");
    assert_eq!(feed.articles[1].link, "https://example.com/list/two");
}

#[test]
fn test_execute_plugin_passes_extraction_failures_on() {
    let mut spec = config("news", "https://example.com", "News", 20);
    spec.parser.list.selector = "div[".to_string();
    let result = PluginRegistry::execute_plugin(&spec, "<html></html>");
    assert!(matches!(result, Err(RssHubError::ParseError(_))));
}
