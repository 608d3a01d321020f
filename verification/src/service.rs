//! Request and result of one statement download.

use core::time::Duration;
use vstd::prelude::*;
use vstd::std_specs::convert::FromSpecImpl;

use crate::config::{duration_of_secs, ScraperConfig, DEFAULT_DOWNLOAD_PATH, DEFAULT_TIMEOUT_SECS};

verus! {

/// What a caller asks for: credentials, target directory, window mode.
#[derive(Debug, Clone)]
pub struct ScrapeRequest {
    pub user_id: String,
    pub password: String,
    pub download_path: String,
    pub headless: bool,
}

impl ScrapeRequest {
    /// A headless request into the default download directory.
    pub fn new(user_id: &str, password: &str) -> (r: Self)
        ensures
            r.user_id@ == user_id@,
            r.password@ == password@,
            r.download_path@ == DEFAULT_DOWNLOAD_PATH@,
            r.headless,
    {
        ScrapeRequest {
            user_id: user_id.to_string(),
            password: password.to_string(),
            download_path: DEFAULT_DOWNLOAD_PATH.to_string(),
            headless: true,
        }
    }

    /// The same request with another download directory.
    pub fn with_download_path(self, path: &str) -> (r: Self)
        ensures
            r.download_path@ == path@,
            r.user_id == self.user_id,
            r.password == self.password,
            r.headless == self.headless,
    {
        let mut next = self;
        next.download_path = path.to_string();
        next
    }

    /// The same request with the browser window hidden or shown.
    pub fn with_headless(self, headless: bool) -> (r: Self)
        ensures
            r.headless == headless,
            r.user_id == self.user_id,
            r.password == self.password,
            r.download_path == self.download_path,
    {
        let mut next = self;
        next.headless = headless;
        next
    }
}

/// The settings that a request stands for: its own fields, with the
/// default time limit.
pub open spec fn config_of_request(req: ScrapeRequest) -> ScraperConfig {
    ScraperConfig {
        user_id: req.user_id,
        password: req.password,
        download_path: req.download_path,
        headless: req.headless,
        timeout: duration_of_secs(DEFAULT_TIMEOUT_SECS),
    }
}

impl From<ScrapeRequest> for ScraperConfig {
    fn from(req: ScrapeRequest) -> (r: ScraperConfig) {
        ScraperConfig {
            user_id: req.user_id,
            password: req.password,
            download_path: req.download_path,
            headless: req.headless,
            timeout: Duration::from_secs(DEFAULT_TIMEOUT_SECS),
        }
    }
}

impl FromSpecImpl<ScrapeRequest> for ScraperConfig {
    open spec fn obeys_from_spec() -> bool {
        true
    }

    open spec fn from_spec(req: ScrapeRequest) -> ScraperConfig {
        config_of_request(req)
    }
}

/// A downloaded statement: where it lies and what it holds.
#[derive(Debug)]
pub struct ScrapeResult {
    pub csv_path: String,
    pub csv_content: Vec<u8>,
}

impl ScrapeResult {
    /// The result for a file at `csv_path` whose bytes are `csv_content`.
    pub fn new(csv_path: String, csv_content: Vec<u8>) -> (r: Self)
        ensures
            r.csv_path == csv_path,
            r.csv_content == csv_content,
    {
        ScrapeResult { csv_path, csv_content }
    }

    /// Number of bytes in the statement.
    pub fn size(&self) -> (n: usize)
        ensures
            n == self.csv_content@.len(),
    {
        self.csv_content.len()
    }
}

/// The download service. It holds no state: every request is served from
/// scratch.
#[derive(Debug, Clone, Copy)]
pub struct ScraperService {}

impl Default for ScraperService {
    fn default() -> (r: Self)
        ensures
            r == (ScraperService {}),
    {
        ScraperService {}
    }
}

impl ScraperService {
    pub fn new() -> (r: Self)
        ensures
            r == (ScraperService {}),
    {
        ScraperService {}
    }

    /// The settings with which a request is served.
    pub fn config_for(&self, req: ScrapeRequest) -> (r: ScraperConfig)
        ensures
            r == config_of_request(req),
    {
        ScraperConfig::from(req)
    }
}

} // verus!
