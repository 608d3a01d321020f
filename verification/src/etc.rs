//! The statement service: logging in and downloading the statement.

pub mod scraper;

pub use scraper::EtcScraper;
