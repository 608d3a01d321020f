//! Idle detection: deciding from repeated polls when a page has settled.
//!
//! A single quiet reading proves little on a page that renders in bursts, so
//! a wait ends only after a run of good polls in a row. A wait that runs out
//! of time is a soft failure: the caller goes on anyway.

use vstd::prelude::*;

verus! {

/// Consecutive idle polls that end a network wait.
pub const REQUIRED_IDLE_CHECKS: u32 = 3;

/// Consecutive unchanged polls that end a document wait.
pub const REQUIRED_STABLE_CHECKS: u32 = 3;

/// Milliseconds after which a network wait gives up.
pub const NETWORK_IDLE_TIMEOUT_MS: u64 = 30000;

/// Milliseconds between two network polls.
pub const NETWORK_IDLE_CHECK_INTERVAL_MS: u64 = 500;

/// Milliseconds after which a document wait gives up.
pub const PAGE_STABLE_TIMEOUT_MS: u64 = 10000;

/// Milliseconds between two document polls.
pub const PAGE_STABLE_CHECK_INTERVAL_MS: u64 = 300;

/// The soft failure of a wait: the window closed before the page settled.
/// The caller proceeds and records the step as degraded.
#[derive(Clone, Copy, Debug, PartialEq, Eq, Structural)]
pub struct TimedOutButProceed {}

/// What one network poll read on the page.
#[derive(Clone, Copy, Debug, PartialEq, Eq, Structural)]
pub struct NetworkSample {
    /// Resource loads started in the last half second and not yet complete.
    pub recent_requests: u64,
    /// The page's own count of pending requests; 0 where it keeps none.
    pub pending_requests: u64,
}

impl NetworkSample {
    /// Idle means that both counts are zero.
    pub open spec fn spec_is_idle(&self) -> bool {
        self.recent_requests == 0 && self.pending_requests == 0
    }

    #[verifier::when_used_as_spec(spec_is_idle)]
    pub fn is_idle(&self) -> (r: bool)
        ensures
            r == self.spec_is_idle(),
    {
        self.recent_requests == 0 && self.pending_requests == 0
    }
}

/// How long a wait may last, how often it polls and how long a run it needs.
#[derive(Clone, Copy, Debug, PartialEq, Eq, Structural)]
pub struct IdlePolicy {
    pub timeout_ms: u64,
    pub check_interval_ms: u64,
    pub required_checks: u32,
}

impl IdlePolicy {
    /// The policy of a network wait: 30 s, every 500 ms, 3 in a row.
    pub fn network() -> (r: Self)
        ensures
            r.timeout_ms == NETWORK_IDLE_TIMEOUT_MS,
            r.check_interval_ms == NETWORK_IDLE_CHECK_INTERVAL_MS,
            r.required_checks == REQUIRED_IDLE_CHECKS,
    {
        IdlePolicy {
            timeout_ms: NETWORK_IDLE_TIMEOUT_MS,
            check_interval_ms: NETWORK_IDLE_CHECK_INTERVAL_MS,
            required_checks: REQUIRED_IDLE_CHECKS,
        }
    }

    /// The policy of a document wait: 10 s, every 300 ms, 3 in a row.
    pub fn document() -> (r: Self)
        ensures
            r.timeout_ms == PAGE_STABLE_TIMEOUT_MS,
            r.check_interval_ms == PAGE_STABLE_CHECK_INTERVAL_MS,
            r.required_checks == REQUIRED_STABLE_CHECKS,
    {
        IdlePolicy {
            timeout_ms: PAGE_STABLE_TIMEOUT_MS,
            check_interval_ms: PAGE_STABLE_CHECK_INTERVAL_MS,
            required_checks: REQUIRED_STABLE_CHECKS,
        }
    }
}

/// The state of one wait. It is made when the wait begins and dropped when
/// it ends.
#[derive(Clone, Copy, Debug, PartialEq, Eq, Structural)]
pub struct IdleState {
    /// Good polls in a row up to now, counted no further than `u32::MAX`.
    pub consecutive: u32,
    /// The last document length that a poll read, if any did.
    pub last_len: Option<usize>,
    /// The clock reading, in milliseconds, at which the wait began.
    pub window_start: u64,
}

/// The run counter after one more poll.
pub open spec fn counted(consecutive: u32, good: bool) -> u32 {
    if !good {
        0
    } else if consecutive < u32::MAX {
        (consecutive + 1) as u32
    } else {
        consecutive
    }
}

impl IdleState {
    /// The state of a wait that begins at clock reading `now_ms`.
    pub fn begin(now_ms: u64) -> (r: Self)
        ensures
            r == (IdleState { consecutive: 0, last_len: None, window_start: now_ms }),
    {
        IdleState { consecutive: 0, last_len: None, window_start: now_ms }
    }

    /// Milliseconds since the wait began: 0 if the clock reads less than it
    /// did then.
    pub open spec fn elapsed(&self, now_ms: u64) -> int {
        if now_ms >= self.window_start {
            now_ms - self.window_start
        } else {
            0
        }
    }

    /// Whether another poll is due: the window is still open.
    pub fn within(&self, policy: &IdlePolicy, now_ms: u64) -> (r: bool)
        ensures
            r == (self.elapsed(now_ms) < policy.timeout_ms),
    {
        now_ms.saturating_sub(self.window_start) < policy.timeout_ms
    }

    /// Takes in a poll that was good or not, and says whether the wait is
    /// over. Any poll that is not good starts the count again.
    pub fn observe(&mut self, policy: &IdlePolicy, good: bool) -> (settled: bool)
        ensures
            final(self).consecutive == counted(old(self).consecutive, good),
            final(self).last_len == old(self).last_len,
            final(self).window_start == old(self).window_start,
            settled == (good && final(self).consecutive >= policy.required_checks),
    {
        if good {
            if self.consecutive < u32::MAX {
                self.consecutive = self.consecutive + 1;
            }
            self.consecutive >= policy.required_checks
        } else {
            self.consecutive = 0;
            false
        }
    }

    /// Takes in a network poll; `None` stands for a poll that failed, which
    /// counts as not idle.
    pub fn observe_network(&mut self, policy: &IdlePolicy, sample: Option<NetworkSample>) -> (settled: bool)
        ensures
            final(self).consecutive == counted(old(self).consecutive, network_good(sample)),
            final(self).last_len == old(self).last_len,
            final(self).window_start == old(self).window_start,
            settled == (network_good(sample) && final(self).consecutive
                >= policy.required_checks),
    {
        let good = match sample {
            Some(s) => s.is_idle(),
            None => false,
        };
        self.observe(policy, good)
    }

    /// Takes in a document poll; `None` stands for a poll that failed. A
    /// poll is good when it reads the length that the last successful poll
    /// read. A failed poll is not good and leaves that length as it was.
    pub fn observe_document(&mut self, policy: &IdlePolicy, len: Option<usize>) -> (settled: bool)
        ensures
            final(self).consecutive == counted(
                old(self).consecutive,
                document_good(old(self).last_len, len),
            ),
            final(self).last_len == remembered(old(self).last_len, len),
            final(self).window_start == old(self).window_start,
            settled == (document_good(old(self).last_len, len) && final(self).consecutive
                >= policy.required_checks),
    {
        let good = match (self.last_len, len) {
            (Some(a), Some(b)) => a == b,
            _ => false,
        };
        if len.is_some() {
            self.last_len = len;
        }
        self.observe(policy, good)
    }
}

/// A network poll is good when it succeeded and read an idle page.
pub open spec fn network_good(sample: Option<NetworkSample>) -> bool {
    sample is Some && sample->0.is_idle()
}

/// A document poll is good when it succeeded and read the length that was
/// read last.
pub open spec fn document_good(last: Option<usize>, len: Option<usize>) -> bool {
    last is Some && len is Some && last->0 == len->0
}

/// The length that is remembered after a poll.
pub open spec fn remembered(last: Option<usize>, len: Option<usize>) -> Option<usize> {
    if len is Some {
        len
    } else {
        last
    }
}

/// On a simulated clock that advances by the check interval with every
/// poll, poll number `i` (from 0) is made while the window is open.
pub open spec fn in_window(i: int, timeout_ms: u64, check_interval_ms: u64) -> bool {
    0 <= i && i * check_interval_ms < timeout_ms
}

/// The run that a wait needs: at least one good poll.
pub open spec fn needed(required: u32) -> int {
    if required == 0 {
        1
    } else {
        required as int
    }
}

/// Poll `i` completes a run: it and the `needed - 1` polls before it are
/// all good.
pub open spec fn run_ends_at(good: Seq<bool>, required: u32, i: int) -> bool {
    &&& needed(required) - 1 <= i < good.len()
    &&& forall|j: int| i - needed(required) < j <= i ==> good[j]
}

/// The wait ends with poll `i`: the poll is made in the window and
/// completes a run.
pub open spec fn settles_at(
    good: Seq<bool>,
    timeout_ms: u64,
    check_interval_ms: u64,
    required: u32,
    i: int,
) -> bool {
    in_window(i, timeout_ms, check_interval_ms) && run_ends_at(good, required, i)
}

/// What a wait over the polls `good` returns: the number of polls made when
/// the first run is complete, or the soft failure if no run is completed in
/// the window.
pub open spec fn wait_result(
    good: Seq<bool>,
    timeout_ms: u64,
    check_interval_ms: u64,
    required: u32,
    r: Result<usize, TimedOutButProceed>,
) -> bool {
    match r {
        Ok(polls) => {
            &&& polls >= 1
            &&& settles_at(good, timeout_ms, check_interval_ms, required, polls - 1)
            &&& forall|i: int|
                0 <= i < polls - 1 ==> !settles_at(good, timeout_ms, check_interval_ms, required, i)
        },
        Err(_) => forall|i: int| !settles_at(good, timeout_ms, check_interval_ms, required, i),
    }
}

/// Length of the run of good polls that ends just before poll `i`.
pub open spec fn run_before(good: Seq<bool>, i: int) -> nat
    decreases i,
{
    if i <= 0 || i > good.len() || !good[i - 1] {
        0
    } else {
        1 + run_before(good, i - 1)
    }
}

/// The run before poll `i` has length `n` or more exactly when the `n`
/// polls before `i` are all good.
pub proof fn lemma_run_before(good: Seq<bool>, i: int, n: nat)
    requires
        0 <= i <= good.len(),
    ensures
        run_before(good, i) >= n <==> (n <= i && forall|j: int| i - n <= j < i ==> good[j]),
    decreases n,
{
    if n == 0 {
    } else if i == 0 || !good[i - 1] {
    } else {
        lemma_run_before(good, i - 1, (n - 1) as nat);
        if run_before(good, i) >= n {
            assert forall|j: int| i - n <= j < i implies good[j] by {
                if j < i - 1 {
                    assert(i - 1 - (n - 1) <= j < i - 1);
                }
            }
        }
    }
}

/// The polls of a network wait as good or not.
pub open spec fn network_flags(samples: Seq<Option<NetworkSample>>) -> Seq<bool> {
    Seq::new(samples.len(), |i: int| network_good(samples[i]))
}

/// The length that the last successful poll before poll `i` read.
pub open spec fn last_len_before(lengths: Seq<Option<usize>>, i: int) -> Option<usize>
    decreases i,
{
    if i <= 0 || i > lengths.len() {
        None
    } else {
        remembered(last_len_before(lengths, i - 1), lengths[i - 1])
    }
}

/// The polls of a document wait as good or not.
pub open spec fn document_flags(lengths: Seq<Option<usize>>) -> Seq<bool> {
    Seq::new(lengths.len(), |i: int| document_good(last_len_before(lengths, i), lengths[i]))
}

/// The polls of a wait whose course is known.
enum Readings<'a> {
    Network(&'a Vec<Option<NetworkSample>>),
    Document(&'a Vec<Option<usize>>),
}

impl<'a> Readings<'a> {
    /// The polls as good or not.
    spec fn flags(&self) -> Seq<bool> {
        match self {
            Readings::Network(samples) => network_flags(samples@),
            Readings::Document(lengths) => document_flags(lengths@),
        }
    }

    /// The length that the last successful poll before poll `i` read.
    spec fn last_len(&self, i: int) -> Option<usize> {
        match self {
            Readings::Network(_) => None,
            Readings::Document(lengths) => last_len_before(lengths@, i),
        }
    }

    fn len(&self) -> (n: usize)
        ensures
            n == self.flags().len(),
    {
        match self {
            Readings::Network(samples) => samples.len(),
            Readings::Document(lengths) => lengths.len(),
        }
    }

    /// Hands poll `i` to the state of the wait.
    fn observe(&self, state: &mut IdleState, policy: &IdlePolicy, i: usize) -> (settled: bool)
        requires
            i < self.flags().len(),
            old(state).last_len == self.last_len(i as int),
        ensures
            final(state).consecutive == counted(old(state).consecutive, self.flags()[i as int]),
            final(state).last_len == self.last_len(i + 1),
            final(state).window_start == old(state).window_start,
            settled == (self.flags()[i as int] && final(state).consecutive
                >= policy.required_checks),
    {
        match self {
            Readings::Network(samples) => state.observe_network(policy, samples[i]),
            Readings::Document(lengths) => state.observe_document(policy, lengths[i]),
        }
    }
}

/// A wait on a simulated clock over polls whose course is known: the wait
/// begins at clock reading 0, a poll is made while the window is open and
/// polls are left, and the clock advances by the check interval after each.
fn wait_on(readings: Readings, policy: &IdlePolicy) -> (r: Result<usize, TimedOutButProceed>)
    ensures
        wait_result(
            readings.flags(),
            policy.timeout_ms,
            policy.check_interval_ms,
            policy.required_checks,
            r,
        ),
{
    let ghost good = readings.flags();
    let total: usize = readings.len();
    let mut state = IdleState::begin(0);
    let mut now: u64 = 0;
    let mut i: usize = 0;
    let timeout_ms = policy.timeout_ms;
    let check_interval_ms = policy.check_interval_ms;
    let required = policy.required_checks;
    while i < total && state.within(policy, now)
        invariant
            timeout_ms == policy.timeout_ms,
            check_interval_ms == policy.check_interval_ms,
            required == policy.required_checks,
            good == readings.flags(),
            total == good.len(),
            i <= total,
            state.window_start == 0,
            now == i * check_interval_ms,
            state.consecutive == run_before(good, i as int),
            state.consecutive < needed(required),
            state.last_len == readings.last_len(i as int),
            forall|j: int| 0 <= j < i ==> !settles_at(good, timeout_ms, check_interval_ms, required, j),
        decreases total - i,
    {
        let settled = readings.observe(&mut state, policy, i);
        proof {
            lemma_run_before(good, i + 1, needed(required) as nat);
            assert(in_window(i as int, timeout_ms, check_interval_ms));
        }
        if settled {
            return Ok(i + 1);
        }
        i = i + 1;
        proof {
            assert((i - 1) * check_interval_ms + check_interval_ms == i * check_interval_ms)
                by (nonlinear_arith);
        }
        match now.checked_add(policy.check_interval_ms) {
            Some(next) => {
                now = next;
            },
            None => {
                proof {
                    lemma_window_closed(timeout_ms, check_interval_ms, i as int);
                }
                return Err(TimedOutButProceed {});
            },
        }
    }
    proof {
        if i < total {
            lemma_window_closed(timeout_ms, check_interval_ms, i as int);
        }
    }
    Err(TimedOutButProceed {})
}

/// Once the window is closed it stays closed.
proof fn lemma_window_closed(timeout_ms: u64, check_interval_ms: u64, i: int)
    requires
        i >= 0,
        i * check_interval_ms >= timeout_ms,
    ensures
        forall|j: int| j >= i ==> !in_window(j, timeout_ms, check_interval_ms),
{
    assert forall|j: int| j >= i implies !in_window(j, timeout_ms, check_interval_ms) by {
        assert(j * check_interval_ms >= i * check_interval_ms) by (nonlinear_arith)
            requires
                j >= i,
                check_interval_ms >= 0,
        ;
    }
}

/// Waits for the network to be idle over a fixed sequence of polls, on a
/// clock that advances by `check_interval_ms` with every poll. `None`
/// stands for a poll that failed.
///
/// Returns the number of polls made when `required` idle polls in a row
/// (one, if `required` is 0) have first been read inside the window, and the
/// soft failure when the sequence holds no such run inside the window.
pub fn await_network_idle(
    samples: &Vec<Option<NetworkSample>>,
    timeout_ms: u64,
    check_interval_ms: u64,
    required: u32,
) -> (r: Result<usize, TimedOutButProceed>)
    ensures
        wait_result(network_flags(samples@), timeout_ms, check_interval_ms, required, r),
{
    let policy = IdlePolicy { timeout_ms, check_interval_ms, required_checks: required };
    wait_on(Readings::Network(samples), &policy)
}

/// Waits for the document to be stable over a fixed sequence of polls, each
/// the length of the serialized document, on a clock that advances by
/// `check_interval_ms` with every poll. `None` stands for a poll that
/// failed.
///
/// Returns the number of polls made when `required` polls in a row (one, if
/// `required` is 0) have each read the length read last, and the soft
/// failure when the sequence holds no such run inside the window.
pub fn await_dom_stable(
    lengths: &Vec<Option<usize>>,
    timeout_ms: u64,
    check_interval_ms: u64,
    required: u32,
) -> (r: Result<usize, TimedOutButProceed>)
    ensures
        wait_result(document_flags(lengths@), timeout_ms, check_interval_ms, required, r),
{
    let policy = IdlePolicy { timeout_ms, check_interval_ms, required_checks: required };
    wait_on(Readings::Document(lengths), &policy)
}

} // verus!
