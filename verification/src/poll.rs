//! Polling until a condition holds, a bounded number of times.

use vstd::prelude::*;

verus! {

/// What to do after an evaluation.
#[derive(Clone, Copy, Debug, PartialEq, Eq, Structural)]
pub enum PollStep {
    /// The condition holds: stop.
    Hit,
    /// Sleep for the interval and evaluate again.
    Again,
    /// Sleep for the interval and give up: no attempt is left.
    GiveUp,
}

/// The count of one poll: how many evaluations it may make and how many it
/// has made.
#[derive(Clone, Copy, Debug, PartialEq, Eq, Structural)]
pub struct Poller {
    pub attempts: u32,
    pub interval_ms: u64,
    pub made: u32,
}

impl Poller {
    /// No attempt is counted beyond those allowed.
    pub open spec fn wf(&self) -> bool {
        self.made <= self.attempts
    }

    /// A poll of up to `attempts` evaluations, `interval_ms` apart.
    pub fn new(attempts: u32, interval_ms: u64) -> (r: Self)
        ensures
            r == (Poller { attempts, interval_ms, made: 0 }),
            r.wf(),
    {
        Poller { attempts, interval_ms, made: 0 }
    }

    /// Whether an evaluation may still be made.
    pub fn has_attempt(&self) -> (r: bool)
        ensures
            r == (self.made < self.attempts),
    {
        self.made < self.attempts
    }

    /// The count after one more evaluation; evaluations beyond those
    /// allowed are not counted.
    pub open spec fn counted(&self) -> u32 {
        if self.made < self.attempts {
            (self.made + 1) as u32
        } else {
            self.made
        }
    }

    /// Counts an evaluation that said yes (`hit`) or no, and says how the
    /// poll goes on.
    pub fn observe(&mut self, hit: bool) -> (step: PollStep)
        ensures
            final(self).attempts == old(self).attempts,
            final(self).interval_ms == old(self).interval_ms,
            final(self).made == old(self).counted(),
            step == (if hit {
                PollStep::Hit
            } else if old(self).counted() < old(self).attempts {
                PollStep::Again
            } else {
                PollStep::GiveUp
            }),
    {
        if self.made < self.attempts {
            self.made = self.made + 1;
        }
        if hit {
            PollStep::Hit
        } else if self.made < self.attempts {
            PollStep::Again
        } else {
            PollStep::GiveUp
        }
    }
}

/// The poll over `answers` ends with a yes at evaluation `i`.
pub open spec fn first_hit(answers: Seq<bool>, attempts: u32, i: int) -> bool {
    &&& 0 <= i < answers.len()
    &&& i < attempts
    &&& answers[i]
    &&& forall|j: int| 0 <= j < i ==> !answers[j]
}

/// Polls over a fixed sequence of answers: the number of the first
/// evaluation, among the first `attempts`, that says yes; `None` if none of
/// them does. Answers that are not given count as no.
pub fn poll_until(answers: &Vec<bool>, attempts: u32) -> (r: Option<usize>)
    ensures
        match r {
            Some(i) => first_hit(answers@, attempts, i as int),
            None => forall|i: int| 0 <= i < answers.len() && i < attempts ==> !answers@[i],
        },
{
    let mut poller = Poller::new(attempts, 0);
    let mut i: usize = 0;
    while i < answers.len() && poller.has_attempt()
        invariant
            poller.wf(),
            poller.attempts == attempts,
            poller.made == i,
            i <= answers.len(),
            forall|j: int| 0 <= j < i ==> !answers@[j],
        decreases answers.len() - i,
    {
        match poller.observe(answers[i]) {
            PollStep::Hit => {
                return Some(i);
            },
            _ => {},
        }
        i = i + 1;
    }
    None
}

} // verus!
