//! Watching a directory for the file that a triggered download leaves.
//!
//! Before the download is triggered the names in the directory are noted.
//! Afterwards the directory is listed at a fixed interval. A file is the
//! finished artifact when it was not there before, does not carry the mark
//! of a download in progress, and either carries the expected extension or
//! is larger than a minimum size. Browsers may store a download under an
//! opaque name without extension; the size tells such a file from an empty
//! placeholder, and the watcher gives it the expected extension.

use vstd::prelude::*;

use crate::error::ScraperError;
use crate::text::{chars_of, ends_with, equal_chars, has_suffix, push_text};

verus! {

/// Milliseconds after which the statement download is given up.
pub const DOWNLOAD_WAIT_MS: u64 = 30000;

/// Milliseconds between two listings of the download directory.
pub const DOWNLOAD_POLL_INTERVAL_MS: u64 = 500;

/// Extension of a finished statement.
pub const STATEMENT_EXTENSION: &'static str = "csv";

/// Mark that the browser puts on a download in progress.
pub const PARTIAL_DOWNLOAD_SUFFIX: &'static str = ".crdownload";

/// Mark of a temporary file.
pub const TEMPORARY_SUFFIX: &'static str = ".tmp";

/// One file of a directory listing.
#[derive(Debug)]
pub struct DirEntry {
    pub name: String,
    pub size: u64,
}

/// What counts as a finished artifact, and how long to wait for one.
#[derive(Debug)]
pub struct DownloadPolicy {
    /// The extension of a finished artifact, without the dot.
    pub extension: String,
    /// A file without that extension counts only if it holds more bytes
    /// than this.
    pub min_bytes: u64,
    pub timeout_ms: u64,
    pub poll_interval_ms: u64,
}

/// What was noted when a download was triggered, and what was found.
#[derive(Debug)]
pub struct DownloadRecord {
    /// Names that the directory held before the download was triggered.
    pub known_before: Vec<String>,
    /// Name of the finished artifact, once it is found.
    pub detected: Option<String>,
}

/// The code of a character with the ASCII capitals folded onto the small
/// letters.
pub open spec fn folded(c: char) -> u32 {
    if 'A' <= c <= 'Z' {
        (c as u32 + 32) as u32
    } else {
        c as u32
    }
}

fn fold(c: char) -> (r: u32)
    ensures
        r == folded(c),
{
    let code = c as u32;
    if 65 <= code && code <= 90 {
        code + 32
    } else {
        code
    }
}

/// `name` consists of something, a dot, and `extension` in any mix of ASCII
/// capitals and small letters.
pub open spec fn has_extension(name: Seq<char>, extension: Seq<char>) -> bool {
    &&& name.len() > extension.len() + 1
    &&& name[name.len() - extension.len() - 1] == '.'
    &&& forall|k: int|
        0 <= k < extension.len() ==> folded(#[trigger] name[name.len() - extension.len() + k])
            == folded(extension[k])
}

/// `name` carries the mark of a download in progress.
pub open spec fn is_partial(name: Seq<char>) -> bool {
    ends_with(name, PARTIAL_DOWNLOAD_SUFFIX@) || ends_with(name, TEMPORARY_SUFFIX@)
}

/// `name` is one of `known`.
pub open spec fn is_known(known: Seq<String>, name: Seq<char>) -> bool {
    exists|k: int| 0 <= k < known.len() && (#[trigger] known[k])@ == name
}

/// The entry is the finished artifact of a download that was triggered when
/// the directory held `known`.
pub open spec fn is_complete(entry: DirEntry, known: Seq<String>, policy: DownloadPolicy) -> bool {
    &&& !is_known(known, entry.name@)
    &&& !is_partial(entry.name@)
    &&& (has_extension(entry.name@, policy.extension@) || entry.size > policy.min_bytes)
}

/// Whether `name` ends in a dot and `extension`, whatever the case of its
/// ASCII letters.
pub fn check_extension(name: &Vec<char>, extension: &Vec<char>) -> (r: bool)
    ensures
        r == has_extension(name@, extension@),
{
    if extension.len() >= name.len() || name.len() - extension.len() < 2 {
        return false;
    }
    let start: usize = name.len() - extension.len();
    if name[start - 1] != '.' {
        return false;
    }
    let mut k: usize = 0;
    while k < extension.len()
        invariant
            k <= extension.len(),
            start == name.len() - extension.len(),
            start >= 2,
            forall|j: int| 0 <= j < k ==> folded(#[trigger] name@[start + j]) == folded(extension@[j]),
        decreases extension.len() - k,
    {
        if fold(name[start + k]) != fold(extension[k]) {
            return false;
        }
        k += 1;
    }
    true
}

/// Whether `name` carries the mark of a download in progress.
pub fn check_partial(name: &Vec<char>) -> (r: bool)
    ensures
        r == is_partial(name@),
{
    let partial = chars_of(PARTIAL_DOWNLOAD_SUFFIX);
    let temporary = chars_of(TEMPORARY_SUFFIX);
    has_suffix(name, &partial) || has_suffix(name, &temporary)
}

/// Whether `name` is one of `known`.
pub fn check_known(known: &Vec<String>, name: &Vec<char>) -> (r: bool)
    ensures
        r == is_known(known@, name@),
{
    let mut k: usize = 0;
    while k < known.len()
        invariant
            k <= known.len(),
            forall|j: int| 0 <= j < k ==> (#[trigger] known@[j])@ != name@,
        decreases known.len() - k,
    {
        let other = chars_of(known[k].as_str());
        if equal_chars(&other, name) {
            return true;
        }
        k += 1;
    }
    false
}

impl DownloadPolicy {
    /// The policy of the statement download: a `csv` file, or any file that
    /// is not empty, within 30 s, looked for every 500 ms.
    pub fn statement() -> (p: Self)
        ensures
            p.extension@ == STATEMENT_EXTENSION@,
            p.min_bytes == 0,
            p.timeout_ms == DOWNLOAD_WAIT_MS,
            p.poll_interval_ms == DOWNLOAD_POLL_INTERVAL_MS,
    {
        DownloadPolicy {
            extension: STATEMENT_EXTENSION.to_string(),
            min_bytes: 0,
            timeout_ms: DOWNLOAD_WAIT_MS,
            poll_interval_ms: DOWNLOAD_POLL_INTERVAL_MS,
        }
    }

    /// Whether the entry is the finished artifact.
    pub fn accepts(&self, entry: &DirEntry, known: &Vec<String>) -> (r: bool)
        ensures
            r == is_complete(*entry, known@, *self),
    {
        let name = chars_of(entry.name.as_str());
        if check_known(known, &name) || check_partial(&name) {
            return false;
        }
        let extension = chars_of(self.extension.as_str());
        check_extension(&name, &extension) || entry.size > self.min_bytes
    }

    /// The first finished artifact of a listing, by its position; `None` if
    /// the listing holds none.
    pub fn find_completed(&self, listing: &Vec<DirEntry>, known: &Vec<String>) -> (r: Option<usize>)
        ensures
            match r {
                Some(i) => {
                    &&& i < listing@.len()
                    &&& is_complete(listing@[i as int], known@, *self)
                    &&& forall|j: int| 0 <= j < i ==> !is_complete(listing@[j], known@, *self)
                },
                None => forall|j: int|
                    0 <= j < listing@.len() ==> !is_complete(listing@[j], known@, *self),
            },
    {
        let mut i: usize = 0;
        while i < listing.len()
            invariant
                i <= listing@.len(),
                forall|j: int| 0 <= j < i ==> !is_complete(listing@[j], known@, *self),
            decreases listing@.len() - i,
        {
            if self.accepts(&listing[i], known) {
                return Some(i);
            }
            i += 1;
        }
        None
    }

    /// The name under which a finished artifact is kept: its own if it
    /// carries the expected extension, and else its own with a dot and the
    /// extension added.
    pub fn final_name(&self, name: &str) -> (r: String)
        ensures
            r@ == final_name_of(name@, self.extension@),
    {
        let chars = chars_of(name);
        let extension = chars_of(self.extension.as_str());
        let mut out = name.to_string();
        if !check_extension(&chars, &extension) {
            push_text(&mut out, ".");
            push_text(&mut out, self.extension.as_str());
        }
        out
    }
}

/// The name under which a finished artifact is kept.
pub open spec fn final_name_of(name: Seq<char>, extension: Seq<char>) -> Seq<char> {
    if has_extension(name, extension) {
        name
    } else {
        name + "."@ + extension
    }
}

/// How a watch goes on after a listing.
#[derive(Debug, PartialEq, Eq)]
pub enum WatchStep {
    /// The artifact is there, at this position of the listing.
    Found(usize),
    /// Nothing yet: list again after the poll interval.
    ListAgain,
    /// Nothing, and the time is up.
    TimedOut,
}

impl DownloadRecord {
    /// The record of a download that is triggered while the directory holds
    /// the names `known_before`.
    pub fn new(known_before: Vec<String>) -> (r: Self)
        ensures
            r.known_before == known_before,
            r.detected is None,
    {
        DownloadRecord { known_before, detected: None }
    }

    /// Takes in a listing made `elapsed_ms` after the trigger and decides
    /// how the watch goes on: the first finished artifact ends it, and so
    /// does a listing without one that was made after the timeout.
    pub fn observe(&mut self, policy: &DownloadPolicy, listing: &Vec<DirEntry>, elapsed_ms: u64) -> (step:
        WatchStep)
        ensures
            final(self).known_before == old(self).known_before,
            step_matches(*policy, old(self).known_before@, listing@, elapsed_ms, step),
            match step {
                WatchStep::Found(i) => final(self).detected matches Some(name) && name@
                    == listing@[i as int].name@,
                _ => final(self).detected == old(self).detected,
            },
    {
        match policy.find_completed(listing, &self.known_before) {
            Some(i) => {
                self.detected = Some(listing[i].name.clone());
                WatchStep::Found(i)
            },
            None => {
                if elapsed_ms > policy.timeout_ms {
                    WatchStep::TimedOut
                } else {
                    WatchStep::ListAgain
                }
            },
        }
    }
}

/// The listing holds a finished artifact, and `i` is the first.
pub open spec fn first_complete(
    policy: DownloadPolicy,
    known: Seq<String>,
    listing: Seq<DirEntry>,
    i: int,
) -> bool {
    &&& 0 <= i < listing.len()
    &&& is_complete(listing[i], known, policy)
    &&& forall|j: int| 0 <= j < i ==> !is_complete(listing[j], known, policy)
}

/// The listing holds no finished artifact.
pub open spec fn none_complete(policy: DownloadPolicy, known: Seq<String>, listing: Seq<DirEntry>) -> bool {
    forall|j: int| 0 <= j < listing.len() ==> !is_complete(listing[j], known, policy)
}

/// What a listing made `elapsed_ms` after the trigger leads to.
pub open spec fn step_matches(
    policy: DownloadPolicy,
    known: Seq<String>,
    listing: Seq<DirEntry>,
    elapsed_ms: u64,
    step: WatchStep,
) -> bool {
    match step {
        WatchStep::Found(i) => first_complete(policy, known, listing, i as int),
        WatchStep::ListAgain => none_complete(policy, known, listing) && elapsed_ms
            <= policy.timeout_ms,
        WatchStep::TimedOut => none_complete(policy, known, listing) && elapsed_ms
            > policy.timeout_ms,
    }
}

/// On a simulated clock that advances by the poll interval with every
/// listing, listing number `k` (from 0) is made: the first always, a later
/// one unless the one before it was made after the timeout.
pub open spec fn is_listed(policy: DownloadPolicy, k: int) -> bool {
    k == 0 || (k > 0 && (k - 1) * policy.poll_interval_ms <= policy.timeout_ms)
}

/// What a watch over the given listings returns.
pub open spec fn watch_result(
    policy: DownloadPolicy,
    known: Seq<String>,
    listings: Seq<Vec<DirEntry>>,
    r: Result<String, ScraperError>,
) -> bool {
    match r {
        Ok(name) => exists|k: int, i: int|
            {
                &&& 0 <= k < listings.len()
                &&& is_listed(policy, k)
                &&& #[trigger] first_complete(policy, known, listings[k]@, i)
                &&& name@ == final_name_of(listings[k]@[i].name@, policy.extension@)
                &&& forall|j: int| 0 <= j < k ==> none_complete(policy, known, #[trigger] listings[j]@)
            },
        Err(e) => {
            &&& e matches ScraperError::Timeout(text)
            &&& text@ == DOWNLOAD_TIMED_OUT@
            &&& forall|k: int|
                0 <= k < listings.len() && is_listed(policy, k) ==> none_complete(
                    policy,
                    known,
                    #[trigger] listings[k]@,
                )
        },
    }
}

/// The text of the error of a download that did not finish in time.
pub const DOWNLOAD_TIMED_OUT: &'static str = "download did not complete in time";

/// Watches for the artifact of a download over a fixed sequence of
/// listings, on a clock that advances by the poll interval with every
/// listing. `existing` holds the names that were there before the download
/// was triggered. Listings that are not given are empty.
///
/// Returns the name under which the first finished artifact of the first
/// listing that holds one is kept, and the error of a timeout if no listing
/// that is made holds one.
pub fn trigger_and_await(
    existing: Vec<String>,
    listings: &Vec<Vec<DirEntry>>,
    policy: &DownloadPolicy,
) -> (r: Result<String, ScraperError>)
    ensures
        watch_result(*policy, existing@, listings@, r),
{
    let mut record = DownloadRecord::new(existing);
    let mut elapsed: u64 = 0;
    let mut beyond = false;
    let mut k: usize = 0;
    while k < listings.len()
        invariant
            k <= listings@.len(),
            record.known_before == existing,
            is_listed(*policy, k as int),
            !beyond ==> elapsed == k * policy.poll_interval_ms,
            beyond ==> k * policy.poll_interval_ms > u64::MAX,
            forall|j: int| 0 <= j < k ==> none_complete(*policy, existing@, #[trigger] listings@[j]@),
        decreases listings@.len() - k,
    {
        match record.observe(policy, &listings[k], elapsed) {
            WatchStep::Found(i) => {
                let name = policy.final_name(listings[k][i].name.as_str());
                return Ok(name);
            },
            WatchStep::TimedOut => {
                proof {
                    lemma_not_listed_after(*policy, k as int);
                }
                return Err(ScraperError::Timeout(DOWNLOAD_TIMED_OUT.to_string()));
            },
            WatchStep::ListAgain => {
                if beyond {
                    proof {
                        lemma_not_listed_after(*policy, k as int);
                    }
                    return Err(ScraperError::Timeout(DOWNLOAD_TIMED_OUT.to_string()));
                }
            },
        }
        k = k + 1;
        proof {
            assert((k - 1) * policy.poll_interval_ms + policy.poll_interval_ms == k
                * policy.poll_interval_ms) by (nonlinear_arith);
        }
        match elapsed.checked_add(policy.poll_interval_ms) {
            Some(next) => {
                elapsed = next;
            },
            None => {
                beyond = true;
            },
        }
    }
    Err(ScraperError::Timeout(DOWNLOAD_TIMED_OUT.to_string()))
}

/// Once a listing is made after the timeout, no later listing is made.
proof fn lemma_not_listed_after(policy: DownloadPolicy, k: int)
    requires
        k >= 0,
        k * policy.poll_interval_ms > policy.timeout_ms,
    ensures
        forall|j: int| j > k ==> !is_listed(policy, j),
{
    assert forall|j: int| j > k implies !is_listed(policy, j) by {
        assert((j - 1) * policy.poll_interval_ms >= k * policy.poll_interval_ms)
            by (nonlinear_arith)
            requires
                j - 1 >= k,
                policy.poll_interval_ms >= 0,
        ;
    }
}

} // verus!
