//! The failures this library reports.

use vstd::prelude::*;
use vstd::string::StringExecFns;

verus! {

/// Everything that can go wrong between a request for a feed and its articles.
#[derive(Debug)]
pub enum RssHubError {
    /// A configuration is unusable, or a request could not be built from it.
    Config(String),
    /// The transport failed; the text is the transport's own report.
    HttpError(String),
    /// A document or a selector is malformed.
    ParseError(String),
    /// The backing store failed; the text is its own report.
    IoError(String),
    /// No configuration is stored under this name.
    PluginNotFound(String),
    /// A configuration document is not well-formed.
    InvalidYaml(String),
    /// A response could not be decoded into text.
    EncodingError(String),
    /// A payload could not be serialised or read back.
    SerializationError(String),
    /// Too many requests.
    RateLimitExceeded,
    /// A source address is not a well-formed absolute URL.
    InvalidUrl(String),
}

/// The mathematical content of an [`RssHubError`].
pub enum ErrorView {
    Config(Seq<char>),
    HttpError(Seq<char>),
    ParseError(Seq<char>),
    IoError(Seq<char>),
    PluginNotFound(Seq<char>),
    InvalidYaml(Seq<char>),
    EncodingError(Seq<char>),
    SerializationError(Seq<char>),
    RateLimitExceeded,
    InvalidUrl(Seq<char>),
}

impl ErrorView {
    /// The text shown for this error.
    pub open spec fn message(self) -> Seq<char> {
        match self {
            ErrorView::Config(m) => "Configuration error: "@ + m,
            ErrorView::HttpError(m) => "HTTP request failed: "@ + m,
            ErrorView::ParseError(m) => "Parse error: "@ + m,
            ErrorView::IoError(m) => "IO error: "@ + m,
            ErrorView::PluginNotFound(name) => "Plugin '"@ + name + "' not found"@,
            ErrorView::InvalidYaml(m) => "Invalid YAML: "@ + m,
            ErrorView::EncodingError(m) => "Encoding error: "@ + m,
            ErrorView::SerializationError(m) => "Serialization error: "@ + m,
            ErrorView::RateLimitExceeded => "Rate limit exceeded"@,
            ErrorView::InvalidUrl(url) => "Invalid URL: "@ + url,
        }
    }

    /// The HTTP status a front end answers with: 404 for an unknown plugin, 400
    /// for a bad configuration or address, 502 for a failed upstream request and
    /// 500 for everything else.
    pub open spec fn status_code(self) -> u16 {
        match self {
            ErrorView::PluginNotFound(_) => 404,
            ErrorView::InvalidUrl(_) => 400,
            ErrorView::Config(_) => 400,
            ErrorView::HttpError(_) => 502,
            _ => 500,
        }
    }
}

impl View for RssHubError {
    type V = ErrorView;

    open spec fn view(&self) -> ErrorView {
        match self {
            RssHubError::Config(m) => ErrorView::Config(m@),
            RssHubError::HttpError(m) => ErrorView::HttpError(m@),
            RssHubError::ParseError(m) => ErrorView::ParseError(m@),
            RssHubError::IoError(m) => ErrorView::IoError(m@),
            RssHubError::PluginNotFound(m) => ErrorView::PluginNotFound(m@),
            RssHubError::InvalidYaml(m) => ErrorView::InvalidYaml(m@),
            RssHubError::EncodingError(m) => ErrorView::EncodingError(m@),
            RssHubError::SerializationError(m) => ErrorView::SerializationError(m@),
            RssHubError::RateLimitExceeded => ErrorView::RateLimitExceeded,
            RssHubError::InvalidUrl(m) => ErrorView::InvalidUrl(m@),
        }
    }
}

impl RssHubError {
    /// The text shown for this error.
    pub fn to_string(&self) -> (text: String)
        ensures
            text@ == self@.message(),
    {
        match self {
            RssHubError::Config(m) => String::from_str("Configuration error: ").concat(m.as_str()),
            RssHubError::HttpError(m) => String::from_str("HTTP request failed: ").concat(
                m.as_str(),
            ),
            RssHubError::ParseError(m) => String::from_str("Parse error: ").concat(m.as_str()),
            RssHubError::IoError(m) => String::from_str("IO error: ").concat(m.as_str()),
            RssHubError::PluginNotFound(name) => String::from_str("Plugin '").concat(
                name.as_str(),
            ).concat("' not found"),
            RssHubError::InvalidYaml(m) => String::from_str("Invalid YAML: ").concat(m.as_str()),
            RssHubError::EncodingError(m) => String::from_str("Encoding error: ").concat(
                m.as_str(),
            ),
            RssHubError::SerializationError(m) => String::from_str("Serialization error: ").concat(
                m.as_str(),
            ),
            RssHubError::RateLimitExceeded => String::from_str("Rate limit exceeded"),
            RssHubError::InvalidUrl(url) => String::from_str("Invalid URL: ").concat(url.as_str()),
        }
    }

    /// The HTTP status a front end answers this error with.
    pub fn status_code(&self) -> (code: u16)
        ensures
            code == self@.status_code(),
    {
        match self {
            RssHubError::PluginNotFound(_) => 404,
            RssHubError::InvalidUrl(_) => 400,
            RssHubError::Config(_) => 400,
            RssHubError::HttpError(_) => 502,
            _ => 500,
        }
    }
}

} // verus!
