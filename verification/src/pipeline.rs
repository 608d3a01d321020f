//! The extraction pipeline: the order of the stages of a scrape, and which
//! of them may end it.
//!
//! A scrape establishes a session, extracts the data, lets the page settle,
//! keeps the raw payload, forwards it if an upstream service is configured,
//! enriches the result with video notifications and closes the page. Only
//! two stages can fail the scrape: establishing the session and extracting
//! the data. Every other stage is best effort: its failure is recorded by
//! the driver and the scrape goes on with a partial result.

use vstd::prelude::*;

verus! {

/// A stage of a scrape.
#[derive(Clone, Copy, Debug, PartialEq, Eq, Structural)]
pub enum Stage {
    /// Cookies of an earlier session are put back. Best effort.
    RestoreCookies,
    /// The session controller is driven to a terminal state.
    EstablishSession,
    /// The data is fetched over the bridge and read.
    ExtractData,
    /// The page is given time to settle. The waits cannot fail.
    Settle,
    /// The raw payload is kept for audit. Best effort.
    SaveRaw,
    /// The payload is forwarded, with retries. Best effort.
    Forward,
    /// The video notifications are processed. Best effort.
    ProcessVideos,
    /// The page is closed. Best effort.
    ClosePage,
    /// The scrape has a result. Terminal.
    Finished,
    /// The scrape has failed. Terminal.
    Aborted,
}

impl Stage {
    /// Whether the failure of this stage fails the scrape.
    pub open spec fn spec_is_fatal(&self) -> bool {
        *self is EstablishSession || *self is ExtractData
    }

    /// Whether no stage follows.
    pub open spec fn spec_is_terminal(&self) -> bool {
        *self is Finished || *self is Aborted
    }

    /// Position of the stage in the order of a scrape.
    pub open spec fn rank(&self) -> nat {
        match self {
            Stage::RestoreCookies => 0,
            Stage::EstablishSession => 1,
            Stage::ExtractData => 2,
            Stage::Settle => 3,
            Stage::SaveRaw => 4,
            Stage::Forward => 5,
            Stage::ProcessVideos => 6,
            Stage::ClosePage => 7,
            Stage::Finished => 8,
            Stage::Aborted => 8,
        }
    }

    /// The stage that follows this one, given whether this one succeeded
    /// and whether an upstream service is configured.
    pub open spec fn spec_next(&self, succeeded: bool, forwards: bool) -> Stage {
        match self {
            Stage::RestoreCookies => Stage::EstablishSession,
            Stage::EstablishSession => if succeeded {
                Stage::ExtractData
            } else {
                Stage::Aborted
            },
            Stage::ExtractData => if succeeded {
                Stage::Settle
            } else {
                Stage::Aborted
            },
            Stage::Settle => Stage::SaveRaw,
            Stage::SaveRaw => if forwards {
                Stage::Forward
            } else {
                Stage::ProcessVideos
            },
            Stage::Forward => Stage::ProcessVideos,
            Stage::ProcessVideos => Stage::ClosePage,
            Stage::ClosePage => Stage::Finished,
            Stage::Finished => Stage::Finished,
            Stage::Aborted => Stage::Aborted,
        }
    }

    /// Whether the failure of this stage fails the scrape.
    #[verifier::when_used_as_spec(spec_is_fatal)]
    pub fn is_fatal(&self) -> (r: bool)
        ensures
            r == self.spec_is_fatal(),
    {
        match self {
            Stage::EstablishSession => true,
            Stage::ExtractData => true,
            _ => false,
        }
    }

    /// Whether no stage follows.
    #[verifier::when_used_as_spec(spec_is_terminal)]
    pub fn is_terminal(&self) -> (r: bool)
        ensures
            r == self.spec_is_terminal(),
    {
        match self {
            Stage::Finished => true,
            Stage::Aborted => true,
            _ => false,
        }
    }

    /// The stage that a scrape begins with: cookies are put back if there
    /// are any and a login is not forced.
    pub fn first(has_cookies: bool, force_login: bool) -> (s: Stage)
        ensures
            s == (if has_cookies && !force_login {
                Stage::RestoreCookies
            } else {
                Stage::EstablishSession
            }),
    {
        if has_cookies && !force_login {
            Stage::RestoreCookies
        } else {
            Stage::EstablishSession
        }
    }

    /// The stage that follows this one.
    pub fn next(&self, succeeded: bool, forwards: bool) -> (s: Stage)
        ensures
            s == self.spec_next(succeeded, forwards),
    {
        match self {
            Stage::RestoreCookies => Stage::EstablishSession,
            Stage::EstablishSession => if succeeded {
                Stage::ExtractData
            } else {
                Stage::Aborted
            },
            Stage::ExtractData => if succeeded {
                Stage::Settle
            } else {
                Stage::Aborted
            },
            Stage::Settle => Stage::SaveRaw,
            Stage::SaveRaw => if forwards {
                Stage::Forward
            } else {
                Stage::ProcessVideos
            },
            Stage::Forward => Stage::ProcessVideos,
            Stage::ProcessVideos => Stage::ClosePage,
            Stage::ClosePage => Stage::Finished,
            Stage::Finished => Stage::Finished,
            Stage::Aborted => Stage::Aborted,
        }
    }
}

/// A scrape moves forward: every stage that is not terminal is followed by
/// one of higher rank, so a scrape is over after at most eight stages.
pub proof fn lemma_stage_advances(stage: Stage, succeeded: bool, forwards: bool)
    requires
        !stage.spec_is_terminal(),
    ensures
        stage.spec_next(succeeded, forwards).rank() > stage.rank(),
        stage.spec_next(succeeded, forwards).rank() <= 8,
{
}

/// Best-effort stages never fail a scrape: a scrape is aborted only by the
/// failure of a fatal stage.
pub proof fn lemma_only_fatal_stages_abort(stage: Stage, succeeded: bool, forwards: bool)
    requires
        !stage.spec_is_terminal(),
    ensures
        stage.spec_next(succeeded, forwards) is Aborted <==> stage.spec_is_fatal() && !succeeded,
{
}

} // verus!
