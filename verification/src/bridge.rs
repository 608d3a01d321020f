//! The bridge from callback-style remote calls to awaited results.
//!
//! The remote side answers a call by invoking one of two callbacks on the
//! page, some time later and with whatever arguments its binding passes. The
//! host cannot subscribe to that: it can only evaluate script again. So the
//! callbacks write into a slot on the page, and the host polls the slot
//! until it is written or a deadline has passed.
//!
//! Every call has a slot of its own, named by a token. The bridge keeps one
//! record for each call that is in flight, in an arena whose index is the
//! token. A token is never given out twice, so what is written for one call
//! cannot reach another, however late it comes.

use vstd::prelude::*;

use crate::error::ScraperError;
use crate::json::{
    find_member, json_opened, member_string, member_value, open_json, string_member, texts,
    JsonNode, JsonShape,
};
use crate::text::chars_of;

verus! {

/// What one poll read in the slot of a call on the page.
#[derive(Debug)]
pub struct Rendezvous {
    /// A callback has been invoked.
    pub completed: bool,
    /// The arguments of the success callback, in order, each as JSON text.
    /// Their number and shape are the binding's business.
    pub result: Option<Vec<String>>,
    /// The text that the failure callback was given.
    pub error: Option<String>,
}

/// The record of one call in flight.
#[derive(Debug)]
pub struct PendingCall {
    pub correlation_token: usize,
    pub result_slot: Option<Vec<String>>,
    pub error_slot: Option<String>,
    pub completed: bool,
    /// Clock reading, in milliseconds, from which on the call has timed
    /// out.
    pub deadline: u64,
}

impl PendingCall {
    /// At most one of the two slots is written, and only once the call is
    /// completed.
    pub open spec fn wf(&self) -> bool {
        &&& !(self.result_slot is Some && self.error_slot is Some)
        &&& !self.completed ==> self.result_slot is None && self.error_slot is None
    }
}

/// What the bridge knows of a call.
#[derive(Debug)]
pub enum BridgeStatus {
    /// Not answered yet, and the deadline has not passed.
    Pending,
    /// The success callback was invoked with these arguments.
    Resolved(Vec<String>),
    /// The failure callback was invoked with this text.
    Failed(String),
    /// The deadline passed without an answer. The remote side may still
    /// answer later; the bridge will not listen.
    TimedOut,
    /// No call with this token is in flight: it was never opened, or its
    /// result has been handed out already.
    Unknown,
}

/// The arena of calls in flight.
#[derive(Debug)]
pub struct AsyncBridge {
    /// The slot of token `t` is `calls[t]`: the record of the call while it
    /// is in flight, `None` once it has been handed out.
    pub calls: Vec<Option<PendingCall>>,
}

/// The record after a poll of the page read `seen` at clock reading
/// `at_ms`. A record is written once: by the first poll that sees a callback
/// invoked no later than the deadline. The failure text goes before the
/// result.
pub open spec fn written(call: PendingCall, seen: Rendezvous, at_ms: u64) -> PendingCall {
    if call.completed || !seen.completed || at_ms > call.deadline {
        call
    } else if seen.error is Some {
        PendingCall { completed: true, error_slot: seen.error, result_slot: None, ..call }
    } else if seen.result is Some {
        PendingCall { completed: true, result_slot: seen.result, error_slot: None, ..call }
    } else {
        PendingCall { completed: true, result_slot: None, error_slot: None, ..call }
    }
}

/// What a poll of the record at clock reading `now_ms` says: an answer
/// goes before the deadline, and a callback that was invoked with nothing
/// resolves the call with no arguments.
pub open spec fn status_of(call: PendingCall, now_ms: u64, status: BridgeStatus) -> bool {
    if call.completed {
        if call.error_slot is Some {
            status == BridgeStatus::Failed(call.error_slot->0)
        } else if call.result_slot is Some {
            status == BridgeStatus::Resolved(call.result_slot->0)
        } else {
            status matches BridgeStatus::Resolved(arguments) && arguments@.len() == 0
        }
    } else if now_ms >= call.deadline {
        status is TimedOut
    } else {
        status is Pending
    }
}

/// The rule of a record holds whatever is delivered: at most one slot is
/// ever written, and a call that is completed stays completed and keeps
/// what was written for it.
pub proof fn lemma_record_is_written_once(call: PendingCall, seen: Rendezvous, at_ms: u64)
    requires
        call.wf(),
    ensures
        written(call, seen, at_ms).wf(),
        call.completed ==> written(call, seen, at_ms) == call,
        written(call, seen, at_ms).correlation_token == call.correlation_token,
        written(call, seen, at_ms).deadline == call.deadline,
{
}

/// The slot of the token `token` in an arena: the record of the call while
/// it is in flight.
pub open spec fn slot(calls: Seq<Option<PendingCall>>, token: usize) -> Option<PendingCall> {
    if token < calls.len() {
        calls[token as int]
    } else {
        None
    }
}

/// The arena after a poll of the page, made at clock reading `at_ms`, read
/// `seen` in the slot of the call `token`.
pub open spec fn delivered(
    calls: Seq<Option<PendingCall>>,
    token: usize,
    seen: Rendezvous,
    at_ms: u64,
) -> Seq<Option<PendingCall>> {
    match slot(calls, token) {
        Some(call) => calls.update(token as int, Some(written(call, seen, at_ms))),
        None => calls,
    }
}

/// The arena after the call `token` was asked for at clock reading
/// `now_ms`: a call that is answered or has timed out leaves the arena.
pub open spec fn polled(calls: Seq<Option<PendingCall>>, token: usize, now_ms: u64) -> Seq<
    Option<PendingCall>,
> {
    match slot(calls, token) {
        Some(call) => if call.completed || now_ms >= call.deadline {
            calls.update(token as int, None)
        } else {
            calls
        },
        None => calls,
    }
}

/// Isolation: what is delivered for one call, and what becomes of it, never
/// touches the slot of another. A late answer to a call that has timed out
/// therefore cannot reach a call that was opened after it.
pub proof fn lemma_slots_are_isolated(
    calls: Seq<Option<PendingCall>>,
    token: usize,
    other: usize,
    seen: Rendezvous,
    at_ms: u64,
)
    requires
        token != other,
    ensures
        slot(delivered(calls, token, seen, at_ms), other) == slot(calls, other),
        slot(polled(calls, token, at_ms), other) == slot(calls, other),
{
}

/// A call that has left the arena takes nothing in: what is delivered for
/// it leaves the arena as it was.
pub proof fn lemma_finished_calls_take_nothing_in(
    calls: Seq<Option<PendingCall>>,
    token: usize,
    now_ms: u64,
    seen: Rendezvous,
    at_ms: u64,
)
    requires
        slot(calls, token) matches Some(call) && (call.completed || now_ms >= call.deadline),
    ensures
        slot(polled(calls, token, now_ms), token) is None,
        delivered(polled(calls, token, now_ms), token, seen, at_ms) == polled(
            calls,
            token,
            now_ms,
        ),
{
}

impl AsyncBridge {
    /// Every record sits in the slot of its own token and keeps the rule of
    /// the two slots.
    pub open spec fn wf(&self) -> bool {
        forall|t: int|
            0 <= t < self.calls@.len() && (#[trigger] self.calls@[t]) is Some ==> {
                &&& self.calls@[t]->0.correlation_token == t
                &&& self.calls@[t]->0.wf()
            }
    }

    /// The record of the call with token `token`, if it is in flight.
    pub open spec fn get(&self, token: usize) -> Option<PendingCall> {
        slot(self.calls@, token)
    }

    /// A bridge with no call in flight.
    pub fn new() -> (b: Self)
        ensures
            b.wf(),
            forall|t: usize| b.get(t) is None,
    {
        AsyncBridge { calls: Vec::new() }
    }

    /// Opens a call at clock reading `now_ms` that times out `timeout_ms`
    /// later, and returns its token. The token is new, and no other call is
    /// touched.
    pub fn open(&mut self, now_ms: u64, timeout_ms: u64) -> (token: usize)
        ensures
            old(self).wf() ==> final(self).wf(),
            old(self).get(token) is None,
            token == old(self).calls@.len(),
            final(self).calls@.len() == old(self).calls@.len() + 1,
            final(self).get(token) matches Some(call) && {
                &&& call.correlation_token == token
                &&& call.result_slot is None
                &&& call.error_slot is None
                &&& !call.completed
                &&& call.deadline == (if now_ms + timeout_ms <= u64::MAX {
                    (now_ms + timeout_ms) as u64
                } else {
                    u64::MAX
                })
            },
            forall|t: usize| t != token ==> final(self).get(t) == old(self).get(t),
    {
        let token = self.calls.len();
        self.calls.push(
            Some(
                PendingCall {
                    correlation_token: token,
                    result_slot: None,
                    error_slot: None,
                    completed: false,
                    deadline: now_ms.saturating_add(timeout_ms),
                },
            ),
        );
        token
    }

    /// Takes in what a poll of the page read, at clock reading `at_ms`, in
    /// the slot of the call `token`. The record of that call is written as
    /// [`written`] says; a token that is not in flight is passed over. No
    /// other call is touched.
    pub fn deliver(&mut self, token: usize, seen: Rendezvous, at_ms: u64)
        ensures
            old(self).wf() ==> final(self).wf(),
            final(self).calls@ == delivered(old(self).calls@, token, seen, at_ms),
            final(self).get(token) == (match old(self).get(token) {
                Some(call) => Some(written(call, seen, at_ms)),
                None => None,
            }),
            forall|t: usize| t != token ==> final(self).get(t) == old(self).get(t),
    {
        if token >= self.calls.len() {
            return;
        }
        let ghost before = self.calls@;
        let slot = self.calls.remove(token);
        match slot {
            None => {
                self.calls.insert(token, None);
                assert(self.calls@ =~= before);
            },
            Some(call) => {
                let next = if call.completed || !seen.completed || at_ms > call.deadline {
                    call
                } else if seen.error.is_some() {
                    PendingCall {
                        correlation_token: call.correlation_token,
                        result_slot: None,
                        error_slot: seen.error,
                        completed: true,
                        deadline: call.deadline,
                    }
                } else if seen.result.is_some() {
                    PendingCall {
                        correlation_token: call.correlation_token,
                        result_slot: seen.result,
                        error_slot: None,
                        completed: true,
                        deadline: call.deadline,
                    }
                } else {
                    PendingCall {
                        correlation_token: call.correlation_token,
                        result_slot: None,
                        error_slot: None,
                        completed: true,
                        deadline: call.deadline,
                    }
                };
                self.calls.insert(token, Some(next));
                assert(self.calls@ =~= before.update(token as int, Some(next)));
                assert(next == written(call, seen, at_ms));
            },
        }
    }

    /// Asks for the call `token` at clock reading `now_ms`.
    ///
    /// A call that has been answered, or whose deadline has passed, is
    /// handed out and its record dropped: the same token then is
    /// [`BridgeStatus::Unknown`]. A call that is still pending stays as it
    /// is. No other call is touched.
    pub fn poll(&mut self, token: usize, now_ms: u64) -> (status: BridgeStatus)
        ensures
            old(self).wf() ==> final(self).wf(),
            final(self).calls@ == polled(old(self).calls@, token, now_ms),
            match old(self).get(token) {
                Some(call) => status_of(call, now_ms, status),
                None => status is Unknown,
            },
            final(self).get(token) == (if status is Pending {
                old(self).get(token)
            } else {
                None
            }),
            forall|t: usize| t != token ==> final(self).get(t) == old(self).get(t),
    {
        if token >= self.calls.len() {
            return BridgeStatus::Unknown;
        }
        let ghost before = self.calls@;
        let slot = self.calls.remove(token);
        match slot {
            None => {
                self.calls.insert(token, None);
                assert(self.calls@ =~= before);
                BridgeStatus::Unknown
            },
            Some(call) => {
                if call.completed {
                    self.calls.insert(token, None);
                    assert(self.calls@ =~= before.update(token as int, None));
                    match call.error_slot {
                        Some(message) => BridgeStatus::Failed(message),
                        None => match call.result_slot {
                            Some(arguments) => BridgeStatus::Resolved(arguments),
                            None => BridgeStatus::Resolved(Vec::new()),
                        },
                    }
                } else if now_ms >= call.deadline {
                    self.calls.insert(token, None);
                    assert(self.calls@ =~= before.update(token as int, None));
                    BridgeStatus::TimedOut
                } else {
                    self.calls.insert(token, Some(call));
                    assert(self.calls@ =~= before);
                    BridgeStatus::Pending
                }
            },
        }
    }

    /// Gives the call `token` up: its record leaves the arena, and whatever
    /// is delivered for it later is passed over. No other call is touched.
    pub fn abandon(&mut self, token: usize)
        ensures
            old(self).wf() ==> final(self).wf(),
            final(self).calls@ == (if token < old(self).calls@.len() {
                old(self).calls@.update(token as int, None)
            } else {
                old(self).calls@
            }),
            final(self).get(token) is None,
            forall|t: usize| t != token ==> final(self).get(t) == old(self).get(t),
    {
        if token >= self.calls.len() {
            return;
        }
        let ghost before = self.calls@;
        let _ = self.calls.remove(token);
        self.calls.insert(token, None);
        assert(self.calls@ =~= before.update(token as int, None));
    }

    /// Whether the call `token` is in flight.
    pub fn is_in_flight(&self, token: usize) -> (r: bool)
        ensures
            r == (self.get(token) is Some),
    {
        token < self.calls.len() && self.calls[token].is_some()
    }
}

/// What a finished call gives its caller: the arguments of the success
/// callback, or the error of a remote failure or of a timeout. `None` for a
/// call that is pending or unknown.
pub fn status_result(status: BridgeStatus) -> (r: Option<Result<Vec<String>, ScraperError>>)
    ensures
        match status {
            BridgeStatus::Pending => r is None,
            BridgeStatus::Unknown => r is None,
            BridgeStatus::Resolved(arguments) => r == Some(
                Ok::<Vec<String>, ScraperError>(arguments),
            ),
            BridgeStatus::Failed(message) => r == Some(
                Err::<Vec<String>, ScraperError>(ScraperError::JavaScript(message)),
            ),
            BridgeStatus::TimedOut => r matches Some(Err(ScraperError::Timeout(text)))
                && text@ == REMOTE_CALL_TIMED_OUT@,
        },
{
    match status {
        BridgeStatus::Pending => None,
        BridgeStatus::Unknown => None,
        BridgeStatus::Resolved(arguments) => Some(Ok(arguments)),
        BridgeStatus::Failed(message) => Some(Err(ScraperError::JavaScript(message))),
        BridgeStatus::TimedOut => Some(
            Err(ScraperError::Timeout(REMOTE_CALL_TIMED_OUT.to_string())),
        ),
    }
}

/// The text of the error of a call that timed out.
pub const REMOTE_CALL_TIMED_OUT: &'static str = "remote call timed out";

/// Correlation: a call that is answered before its deadline is handed out
/// exactly once, with what was written for it.
pub proof fn lemma_answer_handed_out_once(call: PendingCall, seen: Rendezvous, at_ms: u64, now_ms: u64)
    requires
        call.wf(),
        !call.completed,
        seen.completed,
        seen.error is None,
        seen.result is Some,
        at_ms <= call.deadline,
    ensures
        status_of(written(call, seen, at_ms), now_ms, BridgeStatus::Resolved(seen.result->0)),
        forall|again: Rendezvous, later: u64|
            written(written(call, seen, at_ms), again, later) == written(call, seen, at_ms),
{
}

/// Correlation: an answer that comes after the deadline is not taken
/// in, and the call times out.
pub proof fn lemma_late_answer_times_out(call: PendingCall, seen: Rendezvous, at_ms: u64, now_ms: u64)
    requires
        call.wf(),
        !call.completed,
        at_ms > call.deadline,
        now_ms >= call.deadline,
    ensures
        written(call, seen, at_ms) == call,
        status_of(written(call, seen, at_ms), now_ms, BridgeStatus::TimedOut),
{
}

/// A clock reading, held at the end of the clock where it would pass it.
pub open spec fn saturated(t: int) -> u64 {
    if t > u64::MAX {
        u64::MAX
    } else if t < 0 {
        0
    } else {
        t as u64
    }
}

/// On a simulated clock, evaluation number `k` (from 0) of the slot of a
/// call that was made at `now_ms` is made `k + 1` poll intervals later.
pub open spec fn evaluated_at(now_ms: u64, poll_interval_ms: u64, k: int) -> u64 {
    saturated(now_ms + (k + 1) * poll_interval_ms)
}

/// The deadline of a call that is made at `now_ms`.
pub open spec fn deadline_of(now_ms: u64, timeout_ms: u64) -> u64 {
    saturated(now_ms + timeout_ms)
}

/// Evaluation `k` decides the call: it sees a callback invoked, or it is
/// made when the deadline has passed.
pub open spec fn decides(
    seen: Seq<Rendezvous>,
    now_ms: u64,
    timeout_ms: u64,
    poll_interval_ms: u64,
    k: int,
) -> bool {
    &&& 0 <= k < seen.len()
    &&& (seen[k].completed || evaluated_at(now_ms, poll_interval_ms, k) >= deadline_of(
        now_ms,
        timeout_ms,
    ))
}

/// What a call comes to when an evaluation decides it: what the callback
/// was invoked with, if the evaluation sees one invoked and is made no later
/// than the deadline, and a timeout otherwise.
pub open spec fn decided_as(seen: Rendezvous, in_time: bool, status: BridgeStatus) -> bool {
    if !(seen.completed && in_time) {
        status is TimedOut
    } else if seen.error is Some {
        status == BridgeStatus::Failed(seen.error->0)
    } else if seen.result is Some {
        status == BridgeStatus::Resolved(seen.result->0)
    } else {
        status matches BridgeStatus::Resolved(arguments) && arguments@.len() == 0
    }
}

/// What a bridged call over known evaluations comes to: what the first
/// evaluation that decides it says, and pending if none does.
pub open spec fn call_matches(
    seen: Seq<Rendezvous>,
    now_ms: u64,
    timeout_ms: u64,
    poll_interval_ms: u64,
    status: BridgeStatus,
) -> bool {
    if status is Pending {
        forall|k: int| !decides(seen, now_ms, timeout_ms, poll_interval_ms, k)
    } else {
        exists|k: int|
            {
                &&& #[trigger] decides(seen, now_ms, timeout_ms, poll_interval_ms, k)
                &&& forall|j: int|
                    0 <= j < k ==> !decides(seen, now_ms, timeout_ms, poll_interval_ms, j)
                &&& decided_as(
                    seen[k],
                    evaluated_at(now_ms, poll_interval_ms, k) <= deadline_of(now_ms, timeout_ms),
                    status,
                )
            }
    }
}

/// A call that no evaluation answers in time is never resolved and never
/// failed: it times out, or is still pending when the evaluations end.
pub proof fn lemma_unanswered_call_times_out(
    seen: Seq<Rendezvous>,
    now_ms: u64,
    timeout_ms: u64,
    poll_interval_ms: u64,
    status: BridgeStatus,
)
    requires
        call_matches(seen, now_ms, timeout_ms, poll_interval_ms, status),
        forall|k: int|
            0 <= k < seen.len() && evaluated_at(now_ms, poll_interval_ms, k) <= deadline_of(
                now_ms,
                timeout_ms,
            ) ==> !seen[k].completed,
    ensures
        status is TimedOut || status is Pending,
{
}

impl AsyncBridge {
    /// Makes one bridged call over a fixed sequence of evaluations of its
    /// slot, on a clock that reads `now_ms` when the call is made and
    /// advances by the poll interval before every evaluation.
    ///
    /// The call gets a token of its own. The first evaluation that sees a
    /// callback invoked, and is made no later than the deadline, resolves or
    /// fails the call with what the callback was given. An evaluation that
    /// is made at the deadline and sees none, or is made after the deadline,
    /// times the call out. If the evaluations run out before either, the
    /// call is pending and is given up. In every
    /// case the record of the call has left the arena, and no other call is
    /// touched.
    pub fn await_call(
        &mut self,
        now_ms: u64,
        timeout_ms: u64,
        poll_interval_ms: u64,
        seen: Vec<Rendezvous>,
    ) -> (status: BridgeStatus)
        ensures
            old(self).wf() ==> final(self).wf(),
            final(self).calls@.len() == old(self).calls@.len() + 1,
            final(self).get(old(self).calls@.len() as usize) is None,
            forall|t: usize|
                t != old(self).calls@.len() ==> final(self).get(t) == old(self).get(t),
            call_matches(seen@, now_ms, timeout_ms, poll_interval_ms, status),
    {
        let token = self.open(now_ms, timeout_ms);
        let ghost all = seen@;
        let total = seen.len();
        let mut rest = seen;
        let mut at: u64 = now_ms;
        let mut k: usize = 0;
        while rest.len() > 0
            invariant
                all == seen@,
                all.len() == total,
                k + rest.len() == total,
                rest@ == all.subrange(k as int, total as int),
                token == old(self).calls@.len(),
                self.calls@.len() == old(self).calls@.len() + 1,
                old(self).wf() ==> self.wf(),
                forall|t: usize| t != token ==> self.get(t) == old(self).get(t),
                self.get(token) matches Some(call) && !call.completed && call.deadline
                    == deadline_of(now_ms, timeout_ms) && call.result_slot is None
                    && call.error_slot is None,
                at == saturated(now_ms + k * poll_interval_ms),
                forall|j: int|
                    0 <= j < k ==> !decides(all, now_ms, timeout_ms, poll_interval_ms, j),
            decreases rest.len(),
        {
            let observed = rest.remove(0);
            proof {
                assert(observed == all[k as int]);
                assert(rest@ =~= all.subrange(k + 1, total as int));
                assert((k + 1) * poll_interval_ms == k * poll_interval_ms + poll_interval_ms)
                    by (nonlinear_arith);
                assert(k * poll_interval_ms >= 0) by (nonlinear_arith)
                    requires
                        k >= 0,
                        poll_interval_ms >= 0,
                ;
            }
            at = at.saturating_add(poll_interval_ms);
            assert(at == evaluated_at(now_ms, poll_interval_ms, k as int));
            let ghost in_time = at <= deadline_of(now_ms, timeout_ms);
            self.deliver(token, observed, at);
            let status = self.poll(token, at);
            match status {
                BridgeStatus::Pending => {},
                _ => {
                    assert(decides(all, now_ms, timeout_ms, poll_interval_ms, k as int));
                    assert(decided_as(all[k as int], in_time, status));
                    return status;
                },
            }
            k = k + 1;
        }
        self.abandon(token);
        BridgeStatus::Pending
    }
}

/// What the text of a slot says.
///
/// A text that is no JSON object says that no callback has been invoked.
/// Of an object, the member `completed` says whether one has been, if it is
/// `true`; the member `error` is the failure text, if it is a string and not
/// empty; and the member `result` is the list of arguments, if it is an
/// array, each argument as compact JSON text.
pub open spec fn rendezvous_read(text: Seq<char>, seen: Rendezvous) -> bool {
    match json_opened(text) {
        Ok(JsonShape::Object(members)) => {
            &&& seen.completed == (match member_value(members, "completed"@) {
                Some(v) => json_opened(v) == Ok::<JsonShape, Seq<char>>(JsonShape::Bool(true)),
                None => false,
            })
            &&& match member_string(members, "error"@) {
                Some(e) => if e.len() > 0 {
                    seen.error matches Some(m) && m@ == e
                } else {
                    seen.error is None
                },
                None => seen.error is None,
            }
            &&& match member_value(members, "result"@) {
                Some(v) => match json_opened(v) {
                    Ok(JsonShape::Array(items)) => seen.result matches Some(arguments) && texts(
                        arguments@,
                    ) == items,
                    _ => seen.result is None,
                },
                None => seen.result is None,
            }
        },
        _ => !seen.completed && seen.result is None && seen.error is None,
    }
}

/// Reads what an evaluation of a slot returned.
pub fn read_rendezvous(text: &str) -> (seen: Rendezvous)
    ensures
        rendezvous_read(text@, seen),
{
    let members = match open_json(text) {
        Ok(JsonNode::Object(members)) => members,
        _ => {
            return Rendezvous { completed: false, result: None, error: None };
        },
    };
    let completed = match find_member(&members, "completed") {
        Some(i) => match open_json(members[i].value.as_str()) {
            Ok(JsonNode::Bool(b)) => b,
            _ => false,
        },
        None => false,
    };
    let error = match string_member(&members, "error") {
        Some(e) => {
            let chars = chars_of(e.as_str());
            if chars.len() > 0 {
                Some(e)
            } else {
                None
            }
        },
        None => None,
    };
    let result = match find_member(&members, "result") {
        Some(i) => match open_json(members[i].value.as_str()) {
            Ok(JsonNode::Array(items)) => Some(items),
            _ => None,
        },
        None => None,
    };
    Rendezvous { completed, result, error }
}

} // verus!
