//! The operations that a flow asks of the remote page, and what comes back.
//!
//! The engine plans; a driver performs. A plan is a list of steps, which
//! the driver performs in order. After every step the driver asks
//! [`after_step`] whether the plan goes on and what it reports: a required
//! step that fails ends the plan with [`Outcome::Failed`], a best-effort step
//! that fails reads nothing, and a plan that is performed to its end reports
//! what its last step read: a flag for a probe or a poll, a text for a
//! query, and [`Outcome::Completed`] for any other step.

use vstd::prelude::*;

verus! {

/// A page that a flow goes to.
#[derive(Clone, Copy, Debug, PartialEq, Eq, Structural)]
pub enum Address {
    /// The login page of the vehicle service.
    Login,
    /// The main page of the vehicle service.
    Main,
    /// The front page of the statement service.
    StatementTop,
}

/// A yes-or-no question about the page.
#[derive(Clone, Copy, Debug, PartialEq, Eq, Structural)]
pub enum Probe {
    /// Is the password field of the login form there?
    LoginForm,
    /// Is the home button, the marker of a finished login, there?
    HomeButton,
    /// Is the popup of an account that is already logged in there?
    Popup,
    /// Has the document finished loading?
    PageLoaded,
    /// Is the service binding of the application attached?
    ServiceBinding,
    /// Is the vehicle grid there?
    Grid,
    /// Has every loading message gone?
    LoadingCleared,
    /// Click the search button of the statement service: was it there?
    SearchButtonClicked,
    /// Are the download functions of the statement page loaded?
    DownloadScripts,
}

/// A script that is run for its effect.
#[derive(Clone, Copy, Debug, PartialEq, Eq, Structural)]
pub enum Script {
    /// Click the blocking popup away if one is shown.
    DismissBlockingPopup,
    /// Write the credentials into the login form.
    FillCredentials,
    /// Click the login button.
    ClickLogin,
    /// Click the home button.
    ClickHome,
    /// Click the popup of an account that is already logged in.
    ClickPopup,
    /// Follow the link to the search conditions of the statement service.
    OpenSearchConditions,
    /// Choose to search all statements.
    SelectAllStatements,
    /// Save the search conditions.
    SaveSearchConditions,
    /// Click the link that downloads the statement.
    ClickStatementLink,
}

/// An element of the login page of the statement service.
#[derive(Clone, Copy, Debug, PartialEq, Eq, Structural)]
pub enum Element {
    LoginLink,
    UserIdField,
    PasswordField,
    LoginButton,
}

/// A question whose answer is a text.
#[derive(Clone, Copy, Debug, PartialEq, Eq, Structural)]
pub enum Query {
    /// The address that the page is at.
    Url,
}

/// One operation on the remote page.
#[derive(Clone, Copy, Debug, PartialEq, Eq, Structural)]
pub enum Operation {
    Navigate(Address),
    Run(Script),
    /// Ask once.
    Probe(Probe),
    /// Ask up to `attempts` times, `interval_ms` apart, until the answer is
    /// yes. The driver follows a [`crate::poll::Poller`].
    Poll { probe: Probe, attempts: u32, interval_ms: u64 },
    Read(Query),
    /// Do nothing for so many milliseconds.
    Sleep(u64),
    /// Wait for the network to be idle; the wait cannot fail.
    AwaitNetworkIdle,
    /// Wait for the document to be stable; the wait cannot fail.
    AwaitDomStable,
    /// Capture the page for diagnosis.
    Screenshot,
    /// Wait for the navigation under way to finish.
    AwaitNavigation,
    /// Look an element up.
    Find(Element),
    /// Click the element that was looked up last.
    Click(Element),
    /// Type the user's name into the element that was looked up last.
    TypeUserId(Element),
    /// Type the password into the element that was looked up last.
    TypePassword(Element),
}

/// One step of a plan.
#[derive(Clone, Copy, Debug, PartialEq, Eq, Structural)]
pub struct Step {
    pub op: Operation,
    /// A best-effort step may fail without ending the plan. A best-effort
    /// poll counts a failed evaluation as the answer no.
    pub best_effort: bool,
}

impl Step {
    /// A step whose failure ends the plan.
    pub fn required(op: Operation) -> (s: Step)
        ensures
            s == (Step { op, best_effort: false }),
    {
        Step { op, best_effort: false }
    }

    /// A step whose failure is passed over.
    pub fn best_effort(op: Operation) -> (s: Step)
        ensures
            s == (Step { op, best_effort: true }),
    {
        Step { op, best_effort: true }
    }
}

/// How a browser is to be started.
#[derive(Debug)]
pub struct LaunchPlan {
    /// The browser's executable; `None` leaves the choice to the driver.
    pub executable: Option<String>,
    /// Name of a directory of its own for the browser's profile, below the
    /// system's directory for temporary files; `None` for the default
    /// profile.
    pub user_data_dir: Option<String>,
    /// Whether the browser shows a window.
    pub with_head: bool,
    /// Whether the browser runs without its sandbox.
    pub no_sandbox: bool,
    /// Seconds that a request to the browser may take; `None` for the
    /// driver's default.
    pub request_timeout_secs: Option<u64>,
    /// Width and height of the window; `None` for the default.
    pub window_size: Option<(u32, u32)>,
    /// Further arguments, in order.
    pub args: Vec<String>,
    /// Directory that the browser is told to save downloads to, each under
    /// a name of the browser's choice; `None` leaves downloads alone.
    pub download_dir: Option<String>,
}

/// What the driver reports of a plan.
#[derive(Debug)]
pub enum Outcome {
    /// Every step was performed and the last one reads nothing.
    Completed,
    /// Every step was performed and the last one answered yes or no.
    Flag(bool),
    /// Every step was performed and the last one read a text.
    Text(String),
    /// A required step failed; the steps after it were not performed.
    Failed { op: Operation, message: String },
}

impl Outcome {
    /// The answer that was reported; no if none was.
    pub open spec fn spec_flag(&self) -> bool {
        match self {
            Outcome::Flag(b) => *b,
            _ => false,
        }
    }

    /// The text that was reported; empty if none was.
    pub open spec fn spec_text(&self) -> Seq<char> {
        match self {
            Outcome::Text(t) => t@,
            _ => Seq::empty(),
        }
    }

    /// The answer that was reported; no if none was.
    #[verifier::when_used_as_spec(spec_flag)]
    pub fn flag(&self) -> (b: bool)
        ensures
            b == self.spec_flag(),
    {
        match self {
            Outcome::Flag(b) => *b,
            _ => false,
        }
    }

    /// The text that was reported; empty if none was.
    pub fn text(&self) -> (t: &str)
        ensures
            t@ == self.spec_text(),
    {
        match self {
            Outcome::Text(t) => t.as_str(),
            _ => {
                proof {
                    reveal_strlit("");
                }
                ""
            },
        }
    }
}

/// What a plan has come to after one more step, given the text of the
/// step's failure, if it failed, and what it read, if it did not: whether
/// the plan goes on, and what it reports if this step is its last.
pub open spec fn step_result(step: Step, failed: Option<String>, read: Outcome) -> (bool, Outcome) {
    match failed {
        Some(message) => if step.best_effort {
            (true, Outcome::Completed)
        } else {
            (false, Outcome::Failed { op: step.op, message })
        },
        None => (!(read is Failed), read),
    }
}

/// The rule of a plan, step by step.
///
/// A required step that fails ends the plan, which reports the failure
/// with the step's operation and text. A best-effort step that fails reads
/// nothing, and the plan goes on. A step that did not fail reports what it
/// read, and the plan goes on.
pub fn after_step(step: &Step, failed: Option<String>, read: Outcome) -> (r: (bool, Outcome))
    ensures
        r == step_result(*step, failed, read),
{
    match failed {
        Some(message) => {
            if step.best_effort {
                (true, Outcome::Completed)
            } else {
                (false, Outcome::Failed { op: step.op, message })
            }
        },
        None => {
            let goes_on = match &read {
                Outcome::Failed { .. } => false,
                _ => true,
            };
            (goes_on, read)
        },
    }
}

/// What an evaluation of a poll counts as: a failed evaluation of a
/// best-effort poll is the answer no, and a failed evaluation of a required
/// poll is the poll's failure.
pub fn poll_answer(step: &Step, evaluation: Result<bool, String>) -> (r: Result<bool, String>)
    ensures
        r == (match evaluation {
            Ok(answer) => Ok::<bool, String>(answer),
            Err(message) => if step.best_effort {
                Ok(false)
            } else {
                Err(message)
            },
        }),
{
    match evaluation {
        Ok(answer) => Ok(answer),
        Err(message) => {
            if step.best_effort {
                Ok(false)
            } else {
                Err(message)
            }
        },
    }
}

} // verus!
