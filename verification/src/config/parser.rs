//! Locating, validating and listing stored configurations.

use vstd::prelude::*;
use vstd::string::StringExecFns;
use crate::config::types::{option_view, PluginConfig};
use crate::error::{ErrorView, RssHubError};
use crate::text::{
    drop_suffix, has_suffix, is_sorted, sort_strings, starts_with, strip_suffix, views,
};

verus! {

/// Whether `Url::parse` of the `url` crate accepts `text` as an absolute URL.
pub uninterp spec fn url_parses(text: Seq<char>) -> bool;

/// `Url::parse`: whether `text` is a well-formed absolute URL.
#[verifier::external_body]
fn is_url(text: &str) -> (ok: bool)
    ensures
        ok == url_parses(text@),
{
    url::Url::parse(text).is_ok()
}

/// `file` below the directory `dir`: `file` alone when it starts at the root,
/// else `dir` and `file` with exactly one separator between them, where `dir`
/// is not empty.
pub open spec fn joined_path(dir: Seq<char>, file: Seq<char>) -> Seq<char> {
    if "/"@.is_prefix_of(file) {
        file
    } else if dir.len() == 0 || dir.last() == '/' {
        dir + file
    } else {
        dir + "/"@ + file
    }
}

/// The path of the configuration `name` below the directory `dir`.
pub open spec fn config_path(dir: Seq<char>, name: Seq<char>) -> Seq<char> {
    joined_path(dir, name + ".yml"@)
}

/// What validation says of a configuration whose source address is
/// well-formed exactly when `url_ok` holds. The title is looked at first, then
/// the link, then the address, whatever the kind of the source.
pub open spec fn validation(config: PluginConfig, url_ok: bool) -> Result<(), ErrorView> {
    if config.feed.title@.len() == 0 {
        Err(ErrorView::Config("Feed title cannot be empty"@))
    } else if config.feed.link@.len() == 0 {
        Err(ErrorView::Config("Feed link cannot be empty"@))
    } else if !url_ok {
        Err(ErrorView::InvalidUrl(config.source.spec_url()))
    } else {
        Ok(())
    }
}

/// Whether a configuration passes validation.
pub open spec fn is_valid(config: PluginConfig) -> bool {
    validation(config, url_parses(config.source.spec_url())) is Ok
}

/// The content of a validation's result.
pub open spec fn outcome_view(outcome: Result<(), RssHubError>) -> Result<(), ErrorView> {
    match outcome {
        Ok(()) => Ok(()),
        Err(e) => Err(e@),
    }
}

/// What loading makes of a document that was read and deserialised into
/// `document`: a failure to read or to deserialise stays as it is; a
/// configuration is returned when it passes validation and is replaced by the
/// validation error when it does not.
pub open spec fn loaded(document: Result<PluginConfig, RssHubError>) -> Result<PluginConfig, ErrorView> {
    match document {
        Err(e) => Err(e@),
        Ok(config) => match validation(config, url_parses(config.source.spec_url())) {
            Ok(()) => Ok(config),
            Err(e) => Err(e),
        },
    }
}

/// The content of a loading's result.
pub open spec fn loaded_view(result: Result<PluginConfig, RssHubError>) -> Result<
    PluginConfig,
    ErrorView,
> {
    match result {
        Ok(config) => Ok(config),
        Err(e) => Err(e@),
    }
}

/// One entry of a directory listing.
#[derive(Debug, Clone)]
pub struct DirEntry {
    /// The last component of the entry's path.
    pub file_name: String,
    /// Whether the entry is a regular file and no directory.
    pub is_file: bool,
}

/// The name of the configuration that a directory entry holds: the file name
/// without its extension, for a regular file that is not hidden and whose
/// extension is `yml` or `yaml`.
pub open spec fn plugin_name(entry: DirEntry) -> Option<Seq<char>> {
    let file_name = entry.file_name@;
    if !entry.is_file || "."@.is_prefix_of(file_name) {
        None
    } else if has_suffix(file_name, ".yml"@) {
        Some(drop_suffix(file_name, 4))
    } else if has_suffix(file_name, ".yaml"@) {
        Some(drop_suffix(file_name, 5))
    } else {
        None
    }
}

/// The names of the configurations among `entries`, in the order of the entries.
pub open spec fn plugin_names(entries: Seq<DirEntry>) -> Seq<Seq<char>>
    decreases entries.len(),
{
    if entries.len() == 0 {
        Seq::empty()
    } else {
        let earlier = plugin_names(entries.drop_last());
        match plugin_name(entries.last()) {
            Some(name) => earlier.push(name),
            None => earlier,
        }
    }
}

/// Finds configurations under one directory.
pub struct ConfigParser {
    pub configs_dir: String,
}

impl ConfigParser {
    /// A parser for the configurations under `configs_dir`.
    pub fn new(configs_dir: String) -> (parser: Self)
        ensures
            parser.configs_dir@ == configs_dir@,
    {
        Self { configs_dir }
    }

    /// The path of the file that holds the configuration `name`.
    pub fn get_config_path(&self, name: &str) -> (path: String)
        ensures
            path@ == config_path(self.configs_dir@, name@),
    {
        let file = String::from_str(name).concat(".yml");
        let dir = self.configs_dir.as_str();
        proof {
            reveal_strlit("/");
            if dir@.len() > 0 {
                assert(dir@.subrange(dir@.len() - 1, dir@.len() as int)[0] == dir@.last());
                if dir@.last() == '/' {
                    assert(dir@.subrange(dir@.len() - 1, dir@.len() as int) =~= "/"@);
                }
            }
        }
        if starts_with(file.as_str(), "/") {
            file
        } else if dir.is_empty() || strip_suffix(dir, "/").is_some() {
            String::from_str(dir).concat(file.as_str())
        } else {
            String::from_str(dir).concat("/").concat(file.as_str())
        }
    }

    /// What validation says of a configuration, given whether its source
    /// address is well-formed.
    pub fn check_config(config: &PluginConfig, url_ok: bool) -> (outcome: Result<(), RssHubError>)
        ensures
            outcome_view(outcome) == validation(*config, url_ok),
    {
        if config.feed.title.as_str().is_empty() {
            Err(RssHubError::Config(String::from_str("Feed title cannot be empty")))
        } else if config.feed.link.as_str().is_empty() {
            Err(RssHubError::Config(String::from_str("Feed link cannot be empty")))
        } else if !url_ok {
            Err(RssHubError::InvalidUrl(config.source.url().clone()))
        } else {
            Ok(())
        }
    }

    /// Validates a configuration: its feed needs a title and a link, and its
    /// source address must be a well-formed absolute URL.
    pub fn validate_config(&self, config: &PluginConfig) -> (outcome: Result<(), RssHubError>)
        ensures
            outcome_view(outcome) == validation(*config, url_parses(config.source.spec_url())),
    {
        let url_ok = is_url(config.source.url().as_str());
        Self::check_config(config, url_ok)
    }

    /// Finishes loading a configuration from what reading and deserialising
    /// its document gave.
    pub fn load_plugin(&self, document: Result<PluginConfig, RssHubError>) -> (result: Result<
        PluginConfig,
        RssHubError,
    >)
        ensures
            loaded_view(result) == loaded(document),
    {
        match document {
            Err(e) => Err(e),
            Ok(config) => match self.validate_config(&config) {
                Ok(()) => Ok(config),
                Err(e) => Err(e),
            },
        }
    }

    /// The name of the configuration that a directory entry holds, if it holds
    /// one.
    pub fn plugin_name_of(entry: &DirEntry) -> (name: Option<String>)
        ensures
            option_view(name) == plugin_name(*entry),
    {
        let file_name = entry.file_name.as_str();
        if !entry.is_file || starts_with(file_name, ".") {
            return None;
        }
        match strip_suffix(file_name, ".yml") {
            Some(stem) => {
                proof {
                    reveal_strlit(".yml");
                }
                Some(String::from_str(stem))
            },
            None => match strip_suffix(file_name, ".yaml") {
                Some(stem) => {
                    proof {
                        reveal_strlit(".yaml");
                    }
                    Some(String::from_str(stem))
                },
                None => None,
            },
        }
    }

    /// The names of the configurations in a directory listing, sorted. Hidden
    /// files, directories and files with another extension are left out.
    pub fn list_plugins(&self, entries: &Vec<DirEntry>) -> (names: Vec<String>)
        ensures
            views(names@).to_multiset() == plugin_names(entries@).to_multiset(),
            is_sorted(views(names@)),
    {
        let mut names: Vec<String> = Vec::new();
        let mut index: usize = 0;
        proof {
            assert(entries@.take(0) =~= Seq::empty());
            assert(views(names@) =~= Seq::empty());
        }
        while index < entries.len()
            invariant
                index <= entries.len(),
                views(names@) == plugin_names(entries@.take(index as int)),
            decreases entries.len() - index,
        {
            let ghost before = views(names@);
            proof {
                let upto = entries@.take(index + 1);
                assert(upto.drop_last() =~= entries@.take(index as int));
                assert(upto.last() == entries@[index as int]);
            }
            match Self::plugin_name_of(&entries[index]) {
                Some(name) => {
                    let ghost added = name@;
                    names.push(name);
                    proof {
                        assert(views(names@) =~= before.push(added));
                    }
                },
                None => {},
            }
            index += 1;
        }
        proof {
            assert(entries@.take(entries.len() as int) =~= entries@);
        }
        sort_strings(&mut names);
        names
    }
}

} // verus!
