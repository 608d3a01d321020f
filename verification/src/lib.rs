//! Interaction engine for driving a remote, script-hosted page: idle
//! detection, bridged callback calls, session control, bounded retries and
//! download watching, each as a verified decision procedure.
//!
//! The library never touches a browser, a clock or a disk. A driver performs
//! the operations that the engine plans and hands back what it observed; the
//! engine decides what happens next.

pub mod bridge;
pub mod config;
pub mod download;
pub mod dtakolog;
pub mod error;
pub mod etc;
pub mod idle;
pub mod json;
pub mod pipeline;
pub mod poll;
pub mod retry;
pub mod scripts;
pub mod service;
pub mod session;
pub mod surface;
pub mod text;
pub mod traits;

pub use config::ScraperConfig;
pub use error::{ErrorKind, ScraperError};
pub use etc::EtcScraper;
pub use service::{ScrapeRequest, ScrapeResult, ScraperService};
pub use traits::Scraper;
