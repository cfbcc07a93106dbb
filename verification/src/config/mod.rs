//! Scrape configurations: their shape, their defaults and their validation.

pub mod parser;
pub mod types;

pub use parser::ConfigParser;
