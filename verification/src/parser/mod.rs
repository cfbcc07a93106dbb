//! Turning fetched markup into articles.

pub mod date;
pub mod dom;
pub mod html;

pub use html::HtmlParser;
