//! Settings of the statement-download scraper.

use core::time::Duration;
use vstd::prelude::*;

verus! {

/// The span that `Duration::from_secs` makes of a number of whole seconds.
pub uninterp spec fn duration_of_secs(secs: u64) -> Duration;

/// `Duration::from_secs` of std: the result is the span of `secs` whole
/// seconds, which this library only carries and never looks into.
pub assume_specification[ Duration::from_secs ](secs: u64) -> (d: Duration)
    ensures
        d == duration_of_secs(secs),
;

/// `Clone::clone` of `Duration`, a `Copy` type: the clone is the span itself.
pub assume_specification[ <Duration as Clone>::clone ](d: &Duration) -> (r: Duration)
    ensures
        r == *d,
;

/// Directory that downloads go to when none is chosen.
pub const DEFAULT_DOWNLOAD_PATH: &'static str = "./downloads";

/// Seconds that a scrape may take when no other limit is chosen.
pub const DEFAULT_TIMEOUT_SECS: u64 = 60;

/// Who logs in, where downloads go, and how the browser is run.
#[derive(Debug, Clone)]
pub struct ScraperConfig {
    pub user_id: String,
    pub password: String,
    pub download_path: String,
    pub headless: bool,
    pub timeout: Duration,
}

impl Default for ScraperConfig {
    fn default() -> (r: Self)
        ensures
            r.user_id@ == Seq::<char>::empty(),
            r.password@ == Seq::<char>::empty(),
            r.download_path@ == DEFAULT_DOWNLOAD_PATH@,
            r.headless,
            r.timeout == duration_of_secs(DEFAULT_TIMEOUT_SECS),
    {
        ScraperConfig {
            user_id: String::new(),
            password: String::new(),
            download_path: DEFAULT_DOWNLOAD_PATH.to_string(),
            headless: true,
            timeout: Duration::from_secs(DEFAULT_TIMEOUT_SECS),
        }
    }
}

impl ScraperConfig {
    /// The default settings for the given credentials.
    pub fn new(user_id: &str, password: &str) -> (r: Self)
        ensures
            r.user_id@ == user_id@,
            r.password@ == password@,
            r.download_path@ == DEFAULT_DOWNLOAD_PATH@,
            r.headless,
            r.timeout == duration_of_secs(DEFAULT_TIMEOUT_SECS),
    {
        ScraperConfig {
            user_id: user_id.to_string(),
            password: password.to_string(),
            download_path: DEFAULT_DOWNLOAD_PATH.to_string(),
            headless: true,
            timeout: Duration::from_secs(DEFAULT_TIMEOUT_SECS),
        }
    }

    /// The same settings with another download directory.
    pub fn with_download_path(self, path: &str) -> (r: Self)
        ensures
            r.download_path@ == path@,
            r.user_id == self.user_id,
            r.password == self.password,
            r.headless == self.headless,
            r.timeout == self.timeout,
    {
        let mut next = self;
        next.download_path = path.to_string();
        next
    }

    /// The same settings with the browser window hidden or shown.
    pub fn with_headless(self, headless: bool) -> (r: Self)
        ensures
            r.headless == headless,
            r.user_id == self.user_id,
            r.password == self.password,
            r.download_path == self.download_path,
            r.timeout == self.timeout,
    {
        let mut next = self;
        next.headless = headless;
        next
    }

    /// The same settings with another time limit.
    pub fn with_timeout(self, timeout: Duration) -> (r: Self)
        ensures
            r.timeout == timeout,
            r.user_id == self.user_id,
            r.password == self.password,
            r.download_path == self.download_path,
            r.headless == self.headless,
    {
        let mut next = self;
        next.timeout = timeout;
        next
    }
}

} // verus!
