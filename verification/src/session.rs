//! Session control: the state machine that takes a page from no session to
//! the main page of the application.
//!
//! The controller decides; a driver performs. In every state that is not
//! terminal the controller names a plan of operations, the driver performs
//! it and reports the outcome, and the controller moves on. The states are
//!
//! ```text
//! Unauthenticated -> LoginFormLoaded -> CredentialsSubmitted -> PopupCheck
//!     -> Authenticated -> MainPageReady
//! ```
//!
//! with `PopupDismissal` between `PopupCheck` and `Authenticated`, and
//! `MainPageLoading` and `BindingCheck` between `Authenticated` and
//! `MainPageReady`. `MainPageReady` and `Failed` are terminal.

use vstd::prelude::*;

use crate::error::{ErrorKind, ScraperError};
use crate::surface::{Address, Operation, Outcome, Probe, Query, Script, Step};
use crate::text::{contains, text_contains};

verus! {

/// Polls for the login form.
pub const LOGIN_FORM_POLLS: u32 = 1;

/// Polls for the marker of a finished login.
pub const MARKER_POLLS: u32 = 5;

/// Polls for the document to finish loading.
pub const LOAD_POLLS: u32 = 30;

/// Polls for the service binding of the application.
pub const BINDING_POLLS: u32 = 15;

/// Milliseconds between two polls of the session flow.
pub const POLL_INTERVAL_MS: u64 = 1000;

/// Milliseconds for the login page to settle before its form is checked.
pub const LOGIN_PAGE_SETTLE_MS: u64 = 3000;

/// Milliseconds between dismissing a blocking popup and filling the form.
pub const FORM_SETTLE_MS: u64 = 1000;

/// Milliseconds for a submitted login, or a click on the home button, to
/// take effect.
pub const SUBMIT_SETTLE_MS: u64 = 5000;

/// Milliseconds for a dismissed popup to go away.
pub const POPUP_SETTLE_MS: u64 = 3000;

/// The most transitions that a controller makes before it is terminal.
pub const MAX_TRANSITIONS: u32 = 12;

/// Why a session could not be established.
#[derive(Clone, Copy, Debug, PartialEq, Eq, Structural)]
pub enum SessionFailure {
    /// The login page does not hold the login form.
    LoginFormMissing,
    /// The marker of a finished login never appeared.
    LoginUnconfirmed,
    /// The main page sent the browser back to the login page.
    SessionExpired,
    /// A navigation failed.
    NavigationFailed,
    /// A script evaluation failed.
    ScriptFailed,
}

/// Where the controller stands.
#[derive(Clone, Copy, Debug, PartialEq, Eq, Structural)]
pub enum SessionState {
    /// No session: the login page is to be opened and its form checked.
    Unauthenticated,
    /// The login form is there: the credentials are to be submitted.
    LoginFormLoaded,
    /// The credentials were submitted: the marker is polled for.
    CredentialsSubmitted,
    /// The marker did not appear: the popup of an account that is already
    /// logged in is looked for.
    PopupCheck,
    /// That popup is there: it is dismissed and the marker polled for again.
    PopupDismissal,
    /// The marker is there: the home button is clicked.
    Authenticated,
    /// The main page is opened and its address read.
    MainPageLoading,
    /// The main page is open: its service binding is polled for.
    BindingCheck,
    /// The main page is ready. Terminal.
    MainPageReady,
    /// No session could be established. Terminal.
    Failed(SessionFailure),
}

/// The controller of one session.
#[derive(Clone, Copy, Debug, PartialEq, Eq, Structural)]
pub struct SessionController {
    pub state: SessionState,
    /// The session is taken over from restored cookies and has not been
    /// confirmed yet: whatever goes wrong leads to a fresh login.
    pub resumed: bool,
    /// The credentials have been submitted a second time.
    pub resubmitted: bool,
    /// The main page is used although its service binding never appeared.
    pub degraded: bool,
    /// Screenshots are taken for diagnosis.
    pub debug: bool,
}

/// An address of the login page: the sign of a session that has expired.
pub open spec fn is_login_url(url: Seq<char>) -> bool {
    contains(url, "Login"@) || contains(url, "OES1010"@)
}

/// Whether `url` is an address of the login page.
pub fn check_login_url(url: &str) -> (r: bool)
    ensures
        r == is_login_url(url@),
{
    text_contains(url, "Login") || text_contains(url, "OES1010")
}

/// The poll for the marker of a finished login. A failed evaluation counts
/// as a poll that did not find it.
pub open spec fn marker_poll() -> Step {
    Step {
        op: Operation::Poll {
            probe: Probe::HomeButton,
            attempts: MARKER_POLLS,
            interval_ms: POLL_INTERVAL_MS,
        },
        best_effort: true,
    }
}

fn make_marker_poll() -> (s: Step)
    ensures
        s == marker_poll(),
{
    Step::best_effort(
        Operation::Poll {
            probe: Probe::HomeButton,
            attempts: MARKER_POLLS,
            interval_ms: POLL_INTERVAL_MS,
        },
    )
}

impl SessionController {
    /// A restored session has only the main page left to reach, and a second
    /// submission is never followed by a look for the popup.
    pub open spec fn wf(&self) -> bool {
        &&& self.resumed ==> (self.state is MainPageLoading || self.state is BindingCheck
            || self.state is MainPageReady) && !self.resubmitted
        &&& self.resubmitted ==> !(self.state is Unauthenticated || self.state is PopupCheck
            || self.state is PopupDismissal)
        &&& self.degraded ==> self.state is MainPageReady
    }

    /// Whether no transition is left.
    pub open spec fn spec_is_terminal(&self) -> bool {
        self.state is MainPageReady || self.state is Failed
    }

    /// The controller of a session that starts with a login.
    pub fn fresh(debug: bool) -> (c: Self)
        ensures
            c == (SessionController {
                state: SessionState::Unauthenticated,
                resumed: false,
                resubmitted: false,
                degraded: false,
                debug,
            }),
            c.wf(),
    {
        SessionController {
            state: SessionState::Unauthenticated,
            resumed: false,
            resubmitted: false,
            degraded: false,
            debug,
        }
    }

    /// The controller of a session that is taken over from restored
    /// cookies: the main page is tried first, and whatever goes wrong there
    /// leads to a login.
    pub fn resume(debug: bool) -> (c: Self)
        ensures
            c == (SessionController {
                state: SessionState::MainPageLoading,
                resumed: true,
                resubmitted: false,
                degraded: false,
                debug,
            }),
            c.wf(),
    {
        SessionController {
            state: SessionState::MainPageLoading,
            resumed: true,
            resubmitted: false,
            degraded: false,
            debug,
        }
    }

    /// Whether no transition is left.
    #[verifier::when_used_as_spec(spec_is_terminal)]
    pub fn is_terminal(&self) -> (r: bool)
        ensures
            r == self.spec_is_terminal(),
    {
        match self.state {
            SessionState::MainPageReady => true,
            SessionState::Failed(_) => true,
            _ => false,
        }
    }

    /// Whether the main page is ready.
    pub fn is_ready(&self) -> (r: bool)
        ensures
            r == (self.state is MainPageReady),
    {
        match self.state {
            SessionState::MainPageReady => true,
            _ => false,
        }
    }

    /// Why the session failed, if it did.
    pub fn failure(&self) -> (r: Option<SessionFailure>)
        ensures
            r == (match self.state {
                SessionState::Failed(f) => Some(f),
                _ => None,
            }),
    {
        match self.state {
            SessionState::Failed(f) => Some(f),
            _ => None,
        }
    }

    /// The operations to perform in the present state, in order. A terminal
    /// state asks for none.
    pub open spec fn spec_plan(&self) -> Seq<Step> {
        match self.state {
            SessionState::Unauthenticated => seq![
                Step { op: Operation::Navigate(Address::Login), best_effort: false },
                Step { op: Operation::Sleep(LOGIN_PAGE_SETTLE_MS), best_effort: false },
                Step {
                    op: Operation::Poll {
                        probe: Probe::LoginForm,
                        attempts: LOGIN_FORM_POLLS,
                        interval_ms: POLL_INTERVAL_MS,
                    },
                    best_effort: false,
                },
            ],
            SessionState::LoginFormLoaded => {
                let head = seq![
                    Step { op: Operation::Run(Script::DismissBlockingPopup), best_effort: true },
                    Step { op: Operation::Sleep(FORM_SETTLE_MS), best_effort: false },
                    Step { op: Operation::Run(Script::FillCredentials), best_effort: false },
                ];
                let shot = if self.debug {
                    seq![Step { op: Operation::Screenshot, best_effort: true }]
                } else {
                    Seq::<Step>::empty()
                };
                let tail = seq![
                    Step { op: Operation::Run(Script::ClickLogin), best_effort: false },
                    Step { op: Operation::AwaitNetworkIdle, best_effort: false },
                    Step { op: Operation::Sleep(SUBMIT_SETTLE_MS), best_effort: false },
                ];
                head + shot + tail
            },
            SessionState::CredentialsSubmitted => seq![marker_poll()],
            SessionState::PopupCheck => seq![
                Step { op: Operation::Probe(Probe::Popup), best_effort: false },
            ],
            SessionState::PopupDismissal => seq![
                Step { op: Operation::Run(Script::ClickPopup), best_effort: false },
                Step { op: Operation::Sleep(POPUP_SETTLE_MS), best_effort: false },
                Step { op: Operation::AwaitNetworkIdle, best_effort: false },
                marker_poll(),
            ],
            SessionState::Authenticated => seq![
                Step { op: Operation::Run(Script::ClickHome), best_effort: false },
                Step { op: Operation::AwaitNetworkIdle, best_effort: false },
                Step { op: Operation::Sleep(SUBMIT_SETTLE_MS), best_effort: false },
                Step { op: Operation::AwaitNetworkIdle, best_effort: false },
                Step { op: Operation::AwaitDomStable, best_effort: false },
            ],
            SessionState::MainPageLoading => seq![
                Step { op: Operation::Navigate(Address::Main), best_effort: false },
                Step {
                    op: Operation::Poll {
                        probe: Probe::PageLoaded,
                        attempts: LOAD_POLLS,
                        interval_ms: POLL_INTERVAL_MS,
                    },
                    best_effort: false,
                },
                Step { op: Operation::AwaitNetworkIdle, best_effort: false },
                Step { op: Operation::Sleep(SUBMIT_SETTLE_MS), best_effort: false },
                Step { op: Operation::Read(Query::Url), best_effort: false },
            ],
            SessionState::BindingCheck => seq![
                Step {
                    op: Operation::Poll {
                        probe: Probe::ServiceBinding,
                        attempts: BINDING_POLLS,
                        interval_ms: POLL_INTERVAL_MS,
                    },
                    best_effort: false,
                },
            ],
            SessionState::MainPageReady => Seq::empty(),
            SessionState::Failed(_) => Seq::empty(),
        }
    }

    /// The operations to perform in the present state, in order.
    pub fn plan(&self) -> (steps: Vec<Step>)
        ensures
            steps@ == self.spec_plan(),
    {
        let mut steps: Vec<Step> = Vec::new();
        match self.state {
            SessionState::Unauthenticated => {
                steps.push(Step::required(Operation::Navigate(Address::Login)));
                steps.push(Step::required(Operation::Sleep(LOGIN_PAGE_SETTLE_MS)));
                steps.push(
                    Step::required(
                        Operation::Poll {
                            probe: Probe::LoginForm,
                            attempts: LOGIN_FORM_POLLS,
                            interval_ms: POLL_INTERVAL_MS,
                        },
                    ),
                );
            },
            SessionState::LoginFormLoaded => {
                steps.push(Step::best_effort(Operation::Run(Script::DismissBlockingPopup)));
                steps.push(Step::required(Operation::Sleep(FORM_SETTLE_MS)));
                steps.push(Step::required(Operation::Run(Script::FillCredentials)));
                if self.debug {
                    steps.push(Step::best_effort(Operation::Screenshot));
                }
                steps.push(Step::required(Operation::Run(Script::ClickLogin)));
                steps.push(Step::required(Operation::AwaitNetworkIdle));
                steps.push(Step::required(Operation::Sleep(SUBMIT_SETTLE_MS)));
            },
            SessionState::CredentialsSubmitted => {
                steps.push(make_marker_poll());
            },
            SessionState::PopupCheck => {
                steps.push(Step::required(Operation::Probe(Probe::Popup)));
            },
            SessionState::PopupDismissal => {
                steps.push(Step::required(Operation::Run(Script::ClickPopup)));
                steps.push(Step::required(Operation::Sleep(POPUP_SETTLE_MS)));
                steps.push(Step::required(Operation::AwaitNetworkIdle));
                steps.push(make_marker_poll());
            },
            SessionState::Authenticated => {
                steps.push(Step::required(Operation::Run(Script::ClickHome)));
                steps.push(Step::required(Operation::AwaitNetworkIdle));
                steps.push(Step::required(Operation::Sleep(SUBMIT_SETTLE_MS)));
                steps.push(Step::required(Operation::AwaitNetworkIdle));
                steps.push(Step::required(Operation::AwaitDomStable));
            },
            SessionState::MainPageLoading => {
                steps.push(Step::required(Operation::Navigate(Address::Main)));
                steps.push(
                    Step::required(
                        Operation::Poll {
                            probe: Probe::PageLoaded,
                            attempts: LOAD_POLLS,
                            interval_ms: POLL_INTERVAL_MS,
                        },
                    ),
                );
                steps.push(Step::required(Operation::AwaitNetworkIdle));
                steps.push(Step::required(Operation::Sleep(SUBMIT_SETTLE_MS)));
                steps.push(Step::required(Operation::Read(Query::Url)));
            },
            SessionState::BindingCheck => {
                steps.push(
                    Step::required(
                        Operation::Poll {
                            probe: Probe::ServiceBinding,
                            attempts: BINDING_POLLS,
                            interval_ms: POLL_INTERVAL_MS,
                        },
                    ),
                );
            },
            SessionState::MainPageReady => {},
            SessionState::Failed(_) => {},
        }
        assert(steps@ =~= self.spec_plan());
        steps
    }

    /// The controller with another state and nothing else changed.
    pub open spec fn at(&self, state: SessionState) -> SessionController {
        SessionController { state, ..*self }
    }

    /// The controller that starts over with a login after a restored
    /// session has proved unusable.
    pub open spec fn fall_back(&self) -> SessionController {
        SessionController { state: SessionState::Unauthenticated, resumed: false, ..*self }
    }

    /// The controller after the plan of the present state was performed with
    /// the given outcome.
    ///
    /// - A terminal controller stays as it is.
    /// - A failed step, or a main page that leads back to the login page,
    ///   sends a restored session to a fresh login and fails any other.
    /// - The login form must be there when it has been polled for, else the
    ///   login has failed.
    /// - When the marker does not appear, the popup of an account that is
    ///   already logged in is looked for. Without it the login has failed.
    ///   With it, it is dismissed and the marker polled for again; if it is
    ///   still missing, the credentials are submitted once more, and the
    ///   login has failed if the marker is missing after that.
    /// - A service binding that never appears does not fail the session:
    ///   the main page is ready, and marked degraded.
    pub open spec fn spec_advance(&self, outcome: &Outcome) -> SessionController {
        if self.spec_is_terminal() {
            *self
        } else if let Outcome::Failed { op, .. } = outcome {
            if self.resumed {
                self.fall_back()
            } else if op is Navigate {
                self.at(SessionState::Failed(SessionFailure::NavigationFailed))
            } else {
                self.at(SessionState::Failed(SessionFailure::ScriptFailed))
            }
        } else {
            match self.state {
                SessionState::Unauthenticated => if outcome.spec_flag() {
                    self.at(SessionState::LoginFormLoaded)
                } else {
                    self.at(SessionState::Failed(SessionFailure::LoginFormMissing))
                },
                SessionState::LoginFormLoaded => self.at(SessionState::CredentialsSubmitted),
                SessionState::CredentialsSubmitted => if outcome.spec_flag() {
                    self.at(SessionState::Authenticated)
                } else if self.resubmitted {
                    self.at(SessionState::Failed(SessionFailure::LoginUnconfirmed))
                } else {
                    self.at(SessionState::PopupCheck)
                },
                SessionState::PopupCheck => if outcome.spec_flag() {
                    self.at(SessionState::PopupDismissal)
                } else {
                    self.at(SessionState::Failed(SessionFailure::LoginUnconfirmed))
                },
                SessionState::PopupDismissal => if outcome.spec_flag() {
                    self.at(SessionState::Authenticated)
                } else {
                    SessionController {
                        state: SessionState::LoginFormLoaded,
                        resubmitted: true,
                        ..*self
                    }
                },
                SessionState::Authenticated => self.at(SessionState::MainPageLoading),
                SessionState::MainPageLoading => if is_login_url(outcome.spec_text()) {
                    if self.resumed {
                        self.fall_back()
                    } else {
                        self.at(SessionState::Failed(SessionFailure::SessionExpired))
                    }
                } else {
                    self.at(SessionState::BindingCheck)
                },
                SessionState::BindingCheck => SessionController {
                    state: SessionState::MainPageReady,
                    degraded: !outcome.spec_flag(),
                    ..*self
                },
                SessionState::MainPageReady => *self,
                SessionState::Failed(_) => *self,
            }
        }
    }

    fn with_state(&self, state: SessionState) -> (c: SessionController)
        ensures
            c == self.at(state),
    {
        SessionController {
            state,
            resumed: self.resumed,
            resubmitted: self.resubmitted,
            degraded: self.degraded,
            debug: self.debug,
        }
    }

    fn login_again(&self) -> (c: SessionController)
        ensures
            c == self.fall_back(),
    {
        SessionController {
            state: SessionState::Unauthenticated,
            resumed: false,
            resubmitted: self.resubmitted,
            degraded: self.degraded,
            debug: self.debug,
        }
    }

    /// The controller after the plan of the present state was performed with
    /// the given outcome.
    pub fn advance(&self, outcome: &Outcome) -> (next: SessionController)
        ensures
            next == self.spec_advance(outcome),
    {
        if self.is_terminal() {
            return *self;
        }
        if let Outcome::Failed { op, .. } = outcome {
            if self.resumed {
                return self.login_again();
            }
            return match op {
                Operation::Navigate(_) => self.with_state(
                    SessionState::Failed(SessionFailure::NavigationFailed),
                ),
                _ => self.with_state(SessionState::Failed(SessionFailure::ScriptFailed)),
            };
        }
        match self.state {
            SessionState::Unauthenticated => {
                if outcome.flag() {
                    self.with_state(SessionState::LoginFormLoaded)
                } else {
                    self.with_state(SessionState::Failed(SessionFailure::LoginFormMissing))
                }
            },
            SessionState::LoginFormLoaded => self.with_state(SessionState::CredentialsSubmitted),
            SessionState::CredentialsSubmitted => {
                if outcome.flag() {
                    self.with_state(SessionState::Authenticated)
                } else if self.resubmitted {
                    self.with_state(SessionState::Failed(SessionFailure::LoginUnconfirmed))
                } else {
                    self.with_state(SessionState::PopupCheck)
                }
            },
            SessionState::PopupCheck => {
                if outcome.flag() {
                    self.with_state(SessionState::PopupDismissal)
                } else {
                    self.with_state(SessionState::Failed(SessionFailure::LoginUnconfirmed))
                }
            },
            SessionState::PopupDismissal => {
                if outcome.flag() {
                    self.with_state(SessionState::Authenticated)
                } else {
                    SessionController {
                        state: SessionState::LoginFormLoaded,
                        resumed: self.resumed,
                        resubmitted: true,
                        degraded: self.degraded,
                        debug: self.debug,
                    }
                }
            },
            SessionState::Authenticated => self.with_state(SessionState::MainPageLoading),
            SessionState::MainPageLoading => {
                if check_login_url(outcome.text()) {
                    if self.resumed {
                        self.login_again()
                    } else {
                        self.with_state(SessionState::Failed(SessionFailure::SessionExpired))
                    }
                } else {
                    self.with_state(SessionState::BindingCheck)
                }
            },
            SessionState::BindingCheck => SessionController {
                state: SessionState::MainPageReady,
                resumed: self.resumed,
                resubmitted: self.resubmitted,
                degraded: !outcome.flag(),
                debug: self.debug,
            },
            SessionState::MainPageReady => *self,
            SessionState::Failed(_) => *self,
        }
    }

    /// The controller after a sequence of plans was performed with the
    /// given outcomes, one after the other.
    pub fn run_through(&self, outcomes: &Vec<Outcome>) -> (last: SessionController)
        ensures
            last == self.run(outcomes@),
    {
        let mut current = *self;
        let mut i: usize = 0;
        assert(outcomes@.subrange(0, outcomes@.len() as int) =~= outcomes@);
        while i < outcomes.len()
            invariant
                i <= outcomes@.len(),
                current.run(outcomes@.subrange(i as int, outcomes@.len() as int)) == self.run(
                    outcomes@,
                ),
            decreases outcomes@.len() - i,
        {
            let ghost rest = outcomes@.subrange(i as int, outcomes@.len() as int);
            assert(rest[0] == outcomes@[i as int]);
            assert(rest.subrange(1, rest.len() as int) =~= outcomes@.subrange(
                i + 1,
                outcomes@.len() as int,
            ));
            current = current.advance(&outcomes[i]);
            i += 1;
        }
        current
    }

    /// The most transitions that are left before the controller is
    /// terminal.
    pub open spec fn remaining(&self) -> nat {
        let own: nat = match self.state {
            SessionState::MainPageReady => 0,
            SessionState::Failed(_) => 0,
            SessionState::BindingCheck => 1,
            SessionState::MainPageLoading => 2,
            SessionState::Authenticated => 3,
            SessionState::CredentialsSubmitted => if self.resubmitted {
                4
            } else {
                8
            },
            SessionState::LoginFormLoaded => if self.resubmitted {
                5
            } else {
                9
            },
            SessionState::PopupDismissal => 6,
            SessionState::PopupCheck => 7,
            SessionState::Unauthenticated => 10,
        };
        if self.resumed && !self.spec_is_terminal() {
            own + 10
        } else {
            own
        }
    }

    /// The controller after a sequence of plans was performed with the
    /// given outcomes, one after the other.
    pub open spec fn run(&self, outcomes: Seq<Outcome>) -> SessionController
        decreases outcomes.len(),
    {
        if outcomes.len() == 0 {
            *self
        } else {
            self.spec_advance(&outcomes[0]).run(outcomes.subrange(1, outcomes.len() as int))
        }
    }
}

/// Every transition keeps the controller well formed and, unless the
/// controller is terminal already, brings it closer to a terminal state.
pub proof fn lemma_advance_decreases(c: SessionController, outcome: Outcome)
    requires
        c.wf(),
    ensures
        c.spec_advance(&outcome).wf(),
        c.remaining() <= MAX_TRANSITIONS,
        c.spec_is_terminal() ==> c.spec_advance(&outcome) == c,
        !c.spec_is_terminal() ==> c.spec_advance(&outcome).remaining() < c.remaining(),
{
}

/// Termination: whatever the page does, a controller is terminal after at
/// most `MAX_TRANSITIONS` transitions. From any well-formed controller and
/// for any outcomes, as many of them as the controller has transitions left
/// lead to `MainPageReady` or to `Failed`.
pub proof fn lemma_session_terminates(c: SessionController, outcomes: Seq<Outcome>)
    requires
        c.wf(),
        outcomes.len() >= c.remaining(),
    ensures
        c.run(outcomes).spec_is_terminal(),
        c.run(outcomes).wf(),
    decreases outcomes.len(),
{
    if outcomes.len() == 0 {
    } else {
        lemma_advance_decreases(c, outcomes[0]);
        lemma_session_terminates(
            c.spec_advance(&outcomes[0]),
            outcomes.subrange(1, outcomes.len() as int),
        );
    }
}

/// The main page is reached only through its own checks: a controller that
/// is ready after one more transition stood at the binding check before.
pub proof fn lemma_ready_only_after_binding_check(c: SessionController, outcome: Outcome)
    requires
        !(c.state is MainPageReady),
        c.spec_advance(&outcome).state is MainPageReady,
    ensures
        c.state is BindingCheck,
        !(outcome is Failed),
{
}

/// The failure of a session as an error of the library. `message` is the
/// text of the failed step, which the error of a navigation or a script
/// carries.
pub fn failure_error(failure: SessionFailure, message: &str) -> (e: ScraperError)
    ensures
        e.spec_kind() == failure_kind(failure),
        e.spec_message() == failure_text(failure, message@),
{
    match failure {
        SessionFailure::LoginFormMissing => ScraperError::of_kind(
            ErrorKind::Login,
            "Login form not found",
        ),
        SessionFailure::LoginUnconfirmed => ScraperError::of_kind(
            ErrorKind::Login,
            "Login verification failed",
        ),
        SessionFailure::SessionExpired => ScraperError::of_kind(
            ErrorKind::Session,
            "Redirected to login page - session expired",
        ),
        SessionFailure::NavigationFailed => ScraperError::of_kind(ErrorKind::Navigation, message),
        SessionFailure::ScriptFailed => ScraperError::of_kind(ErrorKind::JavaScript, message),
    }
}

/// The kind of error that a session failure is reported as.
pub open spec fn failure_kind(failure: SessionFailure) -> ErrorKind {
    match failure {
        SessionFailure::LoginFormMissing => ErrorKind::Login,
        SessionFailure::LoginUnconfirmed => ErrorKind::Login,
        SessionFailure::SessionExpired => ErrorKind::Session,
        SessionFailure::NavigationFailed => ErrorKind::Navigation,
        SessionFailure::ScriptFailed => ErrorKind::JavaScript,
    }
}

/// The text of the error that a session failure is reported as.
pub open spec fn failure_text(failure: SessionFailure, message: Seq<char>) -> Seq<char> {
    match failure {
        SessionFailure::LoginFormMissing => "Login form not found"@,
        SessionFailure::LoginUnconfirmed => "Login verification failed"@,
        SessionFailure::SessionExpired => "Redirected to login page - session expired"@,
        SessionFailure::NavigationFailed => message,
        SessionFailure::ScriptFailed => message,
    }
}

} // verus!
