use scraper_service::session::{
    check_login_url, failure_error, SessionController, SessionFailure, SessionState,
};
use scraper_service::surface::{Address, Operation, Outcome, Probe, Query, Script, Step};
use scraper_service::ScraperError;

const MAIN: &str = "https://theearth-np.com/WebVenus/F-AAV0001[VenusMain].aspx";
const LOGIN: &str = "https://theearth-np.com/F-OES1010[Login].aspx?mode=timeout";

fn text(t: &str) -> Outcome {
    Outcome::Text(t.to_string())
}

fn failed(op: Operation) -> Outcome {
    Outcome::Failed { op, message: "broken".to_string() }
}

fn states(start: SessionController, outcomes: &[Outcome]) -> Vec<SessionState> {
    let mut seen = Vec::new();
    let mut current = start;
    for outcome in outcomes {
        current = current.advance(outcome);
        seen.push(current.state);
    }
    seen
}

#[test]
fn a_login_without_surprises() {
    let outcomes = vec![
        Outcome::Flag(true),
        Outcome::Completed,
        Outcome::Flag(true),
        Outcome::Completed,
        text(MAIN),
        Outcome::Flag(true),
    ];
    assert_eq!(
        states(SessionController::fresh(false), &outcomes),
        vec![
            SessionState::LoginFormLoaded,
            SessionState::CredentialsSubmitted,
            SessionState::Authenticated,
            SessionState::MainPageLoading,
            SessionState::BindingCheck,
            SessionState::MainPageReady,
        ]
    );
    let last = SessionController::fresh(false).run_through(&outcomes);
    assert!(last.is_ready());
    assert!(last.is_terminal());
    assert!(!last.degraded);
    assert!(last.failure().is_none());
}

#[test]
fn a_missing_login_form_fails_the_login() {
    let last = SessionController::fresh(false).advance(&Outcome::Flag(false));
    assert_eq!(last.state, SessionState::Failed(SessionFailure::LoginFormMissing));
    assert!(last.is_terminal());
    assert!(!last.is_ready());
    assert_eq!(last.failure(), Some(SessionFailure::LoginFormMissing));
    assert!(last.plan().is_empty());
    assert_eq!(last.advance(&Outcome::Flag(true)), last);
}

#[test]
fn the_popup_of_an_account_that_is_logged_in_already() {
    let outcomes = vec![
        Outcome::Flag(true),
        Outcome::Completed,
        Outcome::Flag(false),
        Outcome::Flag(true),
        Outcome::Flag(true),
    ];
    assert_eq!(
        states(SessionController::fresh(false), &outcomes),
        vec![
            SessionState::LoginFormLoaded,
            SessionState::CredentialsSubmitted,
            SessionState::PopupCheck,
            SessionState::PopupDismissal,
            SessionState::Authenticated,
        ]
    );
}

#[test]
fn without_marker_and_without_popup_the_login_has_failed() {
    let outcomes =
        vec![Outcome::Flag(true), Outcome::Completed, Outcome::Flag(false), Outcome::Flag(false)];
    let last = SessionController::fresh(false).run_through(&outcomes);
    assert_eq!(last.state, SessionState::Failed(SessionFailure::LoginUnconfirmed));
}

#[test]
fn the_credentials_are_submitted_once_more_and_no_further() {
    let outcomes = vec![
        Outcome::Flag(true),
        Outcome::Completed,
        Outcome::Flag(false),
        Outcome::Flag(true),
        Outcome::Flag(false),
        Outcome::Completed,
        Outcome::Flag(false),
    ];
    assert_eq!(
        states(SessionController::fresh(false), &outcomes),
        vec![
            SessionState::LoginFormLoaded,
            SessionState::CredentialsSubmitted,
            SessionState::PopupCheck,
            SessionState::PopupDismissal,
            SessionState::LoginFormLoaded,
            SessionState::CredentialsSubmitted,
            SessionState::Failed(SessionFailure::LoginUnconfirmed),
        ]
    );
    let first_five: Vec<Outcome> = outcomes[..5].iter().map(copy).collect();
    let resubmitted = SessionController::fresh(false).run_through(&first_five);
    assert!(resubmitted.resubmitted);

    let mut outcomes = outcomes;
    outcomes[6] = Outcome::Flag(true);
    let last = SessionController::fresh(false).run_through(&outcomes);
    assert_eq!(last.state, SessionState::Authenticated);
}

fn copy(outcome: &Outcome) -> Outcome {
    match outcome {
        Outcome::Completed => Outcome::Completed,
        Outcome::Flag(b) => Outcome::Flag(*b),
        Outcome::Text(t) => Outcome::Text(t.clone()),
        Outcome::Failed { op, message } => Outcome::Failed { op: *op, message: message.clone() },
    }
}

#[test]
fn a_main_page_that_leads_back_to_the_login_page() {
    let at_main = SessionController::fresh(false).run_through(&vec![
        Outcome::Flag(true),
        Outcome::Completed,
        Outcome::Flag(true),
        Outcome::Completed,
    ]);
    assert_eq!(at_main.state, SessionState::MainPageLoading);
    assert_eq!(
        at_main.advance(&text(LOGIN)).state,
        SessionState::Failed(SessionFailure::SessionExpired)
    );
    assert_eq!(
        at_main.advance(&text("https://theearth-np.com/F-OES1010.aspx")).state,
        SessionState::Failed(SessionFailure::SessionExpired)
    );
    assert_eq!(at_main.advance(&text(MAIN)).state, SessionState::BindingCheck);
    assert_eq!(at_main.advance(&Outcome::Completed).state, SessionState::BindingCheck);
    assert!(check_login_url(LOGIN));
    assert!(check_login_url("xLoginx"));
    assert!(check_login_url("OES1010"));
    assert!(!check_login_url(MAIN));
    assert!(!check_login_url("login"));
    assert!(!check_login_url(""));
}

#[test]
fn a_binding_that_never_appears_degrades_the_session() {
    let last = SessionController::fresh(false).run_through(&vec![
        Outcome::Flag(true),
        Outcome::Completed,
        Outcome::Flag(true),
        Outcome::Completed,
        text(MAIN),
        Outcome::Flag(false),
    ]);
    assert!(last.is_ready());
    assert!(last.degraded);
}

#[test]
fn a_restored_session_goes_straight_to_the_main_page() {
    let start = SessionController::resume(false);
    assert_eq!(start.state, SessionState::MainPageLoading);
    assert!(start.resumed);
    let last = start.run_through(&vec![text(MAIN), Outcome::Flag(true)]);
    assert!(last.is_ready());
    assert!(!last.degraded);
}

#[test]
fn a_restored_session_that_has_expired_falls_back_to_a_login() {
    let start = SessionController::resume(false);
    let next = start.advance(&text(LOGIN));
    assert_eq!(next.state, SessionState::Unauthenticated);
    assert!(!next.resumed);
    let next = start.advance(&failed(Operation::Navigate(Address::Main)));
    assert_eq!(next.state, SessionState::Unauthenticated);
    let next = start.advance(&text(MAIN)).advance(&failed(Operation::Probe(Probe::ServiceBinding)));
    assert_eq!(next.state, SessionState::Unauthenticated);
    assert!(!next.resumed);
}

#[test]
fn a_failed_step_fails_a_fresh_session() {
    let start = SessionController::fresh(false);
    assert_eq!(
        start.advance(&failed(Operation::Navigate(Address::Login))).state,
        SessionState::Failed(SessionFailure::NavigationFailed)
    );
    assert_eq!(
        start.advance(&failed(Operation::Probe(Probe::LoginForm))).state,
        SessionState::Failed(SessionFailure::ScriptFailed)
    );
    let submitted = start.advance(&Outcome::Flag(true));
    assert_eq!(
        submitted.advance(&failed(Operation::Run(Script::FillCredentials))).state,
        SessionState::Failed(SessionFailure::ScriptFailed)
    );
}

#[test]
fn the_plans_of_the_states() {
    let required = |op| Step { op, best_effort: false };
    let best_effort = |op| Step { op, best_effort: true };
    let marker = Step {
        op: Operation::Poll { probe: Probe::HomeButton, attempts: 5, interval_ms: 1000 },
        best_effort: true,
    };

    let c = SessionController::fresh(false);
    assert_eq!(
        c.plan(),
        vec![
            required(Operation::Navigate(Address::Login)),
            required(Operation::Sleep(3000)),
            required(Operation::Poll { probe: Probe::LoginForm, attempts: 1, interval_ms: 1000 }),
        ]
    );
    let c = c.advance(&Outcome::Flag(true));
    assert_eq!(
        c.plan(),
        vec![
            best_effort(Operation::Run(Script::DismissBlockingPopup)),
            required(Operation::Sleep(1000)),
            required(Operation::Run(Script::FillCredentials)),
            required(Operation::Run(Script::ClickLogin)),
            required(Operation::AwaitNetworkIdle),
            required(Operation::Sleep(5000)),
        ]
    );
    let debugging = SessionController::fresh(true).advance(&Outcome::Flag(true));
    assert_eq!(debugging.plan().len(), 7);
    assert_eq!(debugging.plan()[3], best_effort(Operation::Screenshot));

    let c = c.advance(&Outcome::Completed);
    assert_eq!(c.plan(), vec![marker]);
    let popup = c.advance(&Outcome::Flag(false));
    assert_eq!(popup.plan(), vec![required(Operation::Probe(Probe::Popup))]);
    let dismissal = popup.advance(&Outcome::Flag(true));
    assert_eq!(
        dismissal.plan(),
        vec![
            required(Operation::Run(Script::ClickPopup)),
            required(Operation::Sleep(3000)),
            required(Operation::AwaitNetworkIdle),
            marker,
        ]
    );
    let c = c.advance(&Outcome::Flag(true));
    assert_eq!(
        c.plan(),
        vec![
            required(Operation::Run(Script::ClickHome)),
            required(Operation::AwaitNetworkIdle),
            required(Operation::Sleep(5000)),
            required(Operation::AwaitNetworkIdle),
            required(Operation::AwaitDomStable),
        ]
    );
    let c = c.advance(&Outcome::Completed);
    assert_eq!(
        c.plan(),
        vec![
            required(Operation::Navigate(Address::Main)),
            required(Operation::Poll { probe: Probe::PageLoaded, attempts: 30, interval_ms: 1000 }),
            required(Operation::AwaitNetworkIdle),
            required(Operation::Sleep(5000)),
            required(Operation::Read(Query::Url)),
        ]
    );
    let c = c.advance(&text(MAIN));
    assert_eq!(
        c.plan(),
        vec![required(Operation::Poll {
            probe: Probe::ServiceBinding,
            attempts: 15,
            interval_ms: 1000
        })]
    );
    let c = c.advance(&Outcome::Flag(true));
    assert!(c.plan().is_empty());
}

#[test]
fn every_course_ends_within_twelve_transitions() {
    // Every course over four kinds of outcome, from both starts.
    let kinds = [
        || Outcome::Flag(true),
        || Outcome::Flag(false),
        || Outcome::Text(MAIN.to_string()),
        || Outcome::Failed { op: Operation::Run(Script::ClickHome), message: String::new() },
    ];
    let mut longest = 0;
    for start in [SessionController::fresh(false), SessionController::resume(true)] {
        let mut frontier = vec![(start, 0usize)];
        while let Some((controller, depth)) = frontier.pop() {
            if controller.is_terminal() {
                continue;
            }
            assert!(depth < 12);
            for kind in kinds.iter() {
                let next = controller.advance(&kind());
                longest = longest.max(depth + 1);
                frontier.push((next, depth + 1));
            }
        }
    }
    assert_eq!(longest, 12);
}

#[test]
fn the_error_of_a_failed_session() {
    assert!(matches!(
        failure_error(SessionFailure::LoginFormMissing, "ignored"),
        ScraperError::Login(ref text) if text == "Login form not found"
    ));
    assert!(matches!(
        failure_error(SessionFailure::LoginUnconfirmed, "ignored"),
        ScraperError::Login(ref text) if text == "Login verification failed"
    ));
    assert!(matches!(
        failure_error(SessionFailure::SessionExpired, "ignored"),
        ScraperError::Session(ref text) if text == "Redirected to login page - session expired"
    ));
    assert!(matches!(
        failure_error(SessionFailure::NavigationFailed, "net::ERR"),
        ScraperError::Navigation(ref text) if text == "net::ERR"
    ));
    assert!(matches!(
        failure_error(SessionFailure::ScriptFailed, "ReferenceError"),
        ScraperError::JavaScript(ref text) if text == "ReferenceError"
    ));
}
