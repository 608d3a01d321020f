//! The decisions of a download from the statement service.

use vstd::prelude::*;

use crate::config::ScraperConfig;
use crate::download::{trigger_and_await, watch_result, DirEntry, DownloadPolicy};
use crate::error::{ErrorKind, ScraperError};
use crate::json::texts;
use crate::surface::{
    Address, Element, LaunchPlan, Operation, Outcome, Probe, Script, Step,
};
use crate::text::push_text;

verus! {

/// Milliseconds for a page of the statement service to settle.
pub const PAGE_SETTLE_MS: u64 = 3000;

/// Milliseconds for the choice of all statements to take effect.
pub const OPTION_SETTLE_MS: u64 = 1000;

/// Milliseconds for the saved search conditions to take effect.
pub const SAVE_SETTLE_MS: u64 = 2000;

/// Polls for the download functions of the statement page.
pub const SCRIPT_POLLS: u32 = 30;

/// Milliseconds between two of those polls.
pub const SCRIPT_POLL_INTERVAL_MS: u64 = 1000;

/// Width of the browser's window.
pub const WINDOW_WIDTH: u32 = 1280;

/// Height of the browser's window.
pub const WINDOW_HEIGHT: u32 = 800;

/// The argument that names the download directory, up to the directory.
pub const DOWNLOAD_DIR_ARG: &'static str = "--download.default_directory=";

/// The argument that hides the browser's window.
pub const HEADLESS_ARG: &'static str = "--headless=new";

/// The text of the error of a statement page without its search button.
pub const SEARCH_BUTTON_MISSING: &'static str =
    "検索ボタン (input[name='focusTarget']) が見つかりません";

/// The scraper of the statement service: the settings of a download, and
/// the decisions that the download takes. The browser is the driver's.
#[derive(Debug, Clone)]
pub struct EtcScraper {
    pub config: ScraperConfig,
}

/// The plan of a login: open the front page, follow the login link, type
/// the credentials and click the button. Every step is required.
pub open spec fn login_steps() -> Seq<Step> {
    seq![
        Step { op: Operation::Navigate(Address::StatementTop), best_effort: false },
        Step { op: Operation::AwaitNavigation, best_effort: false },
        Step { op: Operation::Find(Element::LoginLink), best_effort: false },
        Step { op: Operation::Click(Element::LoginLink), best_effort: false },
        Step { op: Operation::Sleep(PAGE_SETTLE_MS), best_effort: false },
        Step { op: Operation::Find(Element::UserIdField), best_effort: false },
        Step { op: Operation::TypeUserId(Element::UserIdField), best_effort: false },
        Step { op: Operation::Find(Element::PasswordField), best_effort: false },
        Step { op: Operation::TypePassword(Element::PasswordField), best_effort: false },
        Step { op: Operation::Find(Element::LoginButton), best_effort: false },
        Step { op: Operation::Click(Element::LoginButton), best_effort: false },
        Step { op: Operation::Sleep(PAGE_SETTLE_MS), best_effort: false },
    ]
}

/// The first plan of a download: set the search conditions and click the
/// search button. Only the last step counts: it reports whether the button
/// was there.
pub open spec fn search_steps() -> Seq<Step> {
    seq![
        Step { op: Operation::Run(Script::OpenSearchConditions), best_effort: true },
        Step { op: Operation::Sleep(PAGE_SETTLE_MS), best_effort: false },
        Step { op: Operation::Run(Script::SelectAllStatements), best_effort: true },
        Step { op: Operation::Sleep(OPTION_SETTLE_MS), best_effort: false },
        Step { op: Operation::Run(Script::SaveSearchConditions), best_effort: true },
        Step { op: Operation::Sleep(SAVE_SETTLE_MS), best_effort: false },
        Step { op: Operation::Probe(Probe::SearchButtonClicked), best_effort: true },
    ]
}

/// The second plan of a download: wait for the page's download functions,
/// whether they come or not, and click the statement link. The download
/// itself is watched for in the download directory.
pub open spec fn trigger_steps() -> Seq<Step> {
    seq![
        Step { op: Operation::Sleep(PAGE_SETTLE_MS), best_effort: false },
        Step {
            op: Operation::Poll {
                probe: Probe::DownloadScripts,
                attempts: SCRIPT_POLLS,
                interval_ms: SCRIPT_POLL_INTERVAL_MS,
            },
            best_effort: true,
        },
        Step { op: Operation::Run(Script::ClickStatementLink), best_effort: true },
    ]
}

/// The kind of the error that the failure of a step of the login is
/// reported as: a page that does not open is a failed navigation, an
/// element that is not found is a missing element, and a failure to type or
/// to click the button is a failed login.
pub open spec fn login_error_kind(op: Operation) -> ErrorKind {
    match op {
        Operation::Find(_) => ErrorKind::ElementNotFound,
        Operation::TypeUserId(_) => ErrorKind::Login,
        Operation::TypePassword(_) => ErrorKind::Login,
        Operation::Click(Element::LoginLink) => ErrorKind::Navigation,
        Operation::Click(_) => ErrorKind::Login,
        _ => ErrorKind::Navigation,
    }
}

/// What the text of the error of a failed step of the login begins with.
pub open spec fn login_error_label(op: Operation) -> Seq<char> {
    match op {
        Operation::Find(Element::LoginLink) => "ログインリンク: "@,
        Operation::Find(Element::UserIdField) => "ユーザーID入力欄: "@,
        Operation::Find(Element::PasswordField) => "パスワード入力欄: "@,
        Operation::Find(Element::LoginButton) => "ログインボタン: "@,
        Operation::Click(Element::LoginLink) => "ログインリンククリック: "@,
        Operation::Click(_) => "ログインボタンクリック: "@,
        Operation::TypeUserId(_) => "ユーザーID入力: "@,
        Operation::TypePassword(_) => "パスワード入力: "@,
        _ => Seq::empty(),
    }
}

fn login_label(op: Operation) -> (label: &'static str)
    ensures
        label@ == login_error_label(op),
{
    match op {
        Operation::Find(Element::LoginLink) => "ログインリンク: ",
        Operation::Find(Element::UserIdField) => "ユーザーID入力欄: ",
        Operation::Find(Element::PasswordField) => "パスワード入力欄: ",
        Operation::Find(Element::LoginButton) => "ログインボタン: ",
        Operation::Click(Element::LoginLink) => "ログインリンククリック: ",
        Operation::Click(_) => "ログインボタンクリック: ",
        Operation::TypeUserId(_) => "ユーザーID入力: ",
        Operation::TypePassword(_) => "パスワード入力: ",
        _ => {
            proof {
                reveal_strlit("");
            }
            ""
        },
    }
}

fn login_kind(op: Operation) -> (kind: ErrorKind)
    ensures
        kind == login_error_kind(op),
{
    match op {
        Operation::Find(_) => ErrorKind::ElementNotFound,
        Operation::TypeUserId(_) => ErrorKind::Login,
        Operation::TypePassword(_) => ErrorKind::Login,
        Operation::Click(Element::LoginLink) => ErrorKind::Navigation,
        Operation::Click(_) => ErrorKind::Login,
        _ => ErrorKind::Navigation,
    }
}

/// The name under which a downloaded statement is kept: the user's name,
/// an underscore, and the name that the file came with.
pub open spec fn statement_name(user_id: Seq<char>, file_name: Seq<char>) -> Seq<char> {
    user_id + "_"@ + file_name
}

/// The policy of the statement download.
pub open spec fn is_statement_policy(policy: DownloadPolicy) -> bool {
    &&& policy.extension@ == crate::download::STATEMENT_EXTENSION@
    &&& policy.min_bytes == 0
    &&& policy.timeout_ms == crate::download::DOWNLOAD_WAIT_MS
    &&& policy.poll_interval_ms == crate::download::DOWNLOAD_POLL_INTERVAL_MS
}

/// What a watched download comes to: the error of the watch, or the
/// statement that the watch found, with the name that it is to be given.
pub open spec fn download_matches(
    policy: DownloadPolicy,
    user_id: Seq<char>,
    existing: Seq<String>,
    listings: Seq<Vec<DirEntry>>,
    r: Result<DownloadedStatement, ScraperError>,
) -> bool {
    match r {
        Ok(found) => watch_result(policy, existing, listings, Ok(found.file_name))
            && found.renamed@ == statement_name(user_id, found.file_name@),
        Err(e) => watch_result(policy, existing, listings, Err(e)),
    }
}

/// A statement that was downloaded.
#[derive(Debug)]
pub struct DownloadedStatement {
    /// The name that the download directory holds the file under, with the
    /// statement's extension added if it came without.
    pub file_name: String,
    /// The name that the file is to be given.
    pub renamed: String,
}

impl EtcScraper {
    /// The scraper with the given settings.
    pub fn new(config: ScraperConfig) -> (r: Self)
        ensures
            r.config == config,
    {
        EtcScraper { config }
    }

    /// The arguments that the browser is started with.
    pub open spec fn launch_args(download_dir: Seq<char>, headless: bool) -> Seq<Seq<char>> {
        if headless {
            seq![DOWNLOAD_DIR_ARG@ + download_dir, HEADLESS_ARG@]
        } else {
            seq![DOWNLOAD_DIR_ARG@ + download_dir]
        }
    }

    /// How the browser of a download is started, given the download
    /// directory as the file system names it: with a window of 1280 by
    /// 800, never asked to show it, given the argument that hides it if the
    /// download is headless, and told to save downloads to that directory.
    pub fn initialize(&self, download_dir: &str) -> (plan: LaunchPlan)
        ensures
            plan.executable is None,
            plan.user_data_dir is None,
            !plan.with_head,
            !plan.no_sandbox,
            plan.request_timeout_secs is None,
            plan.window_size == Some((WINDOW_WIDTH, WINDOW_HEIGHT)),
            texts(plan.args@) == Self::launch_args(download_dir@, self.config.headless),
            plan.download_dir matches Some(d) && d@ == download_dir@,
    {
        let mut arg = String::new();
        push_text(&mut arg, DOWNLOAD_DIR_ARG);
        push_text(&mut arg, download_dir);
        let mut args: Vec<String> = Vec::new();
        args.push(arg);
        if self.config.headless {
            args.push(HEADLESS_ARG.to_string());
        }
        assert(texts(args@) =~= Self::launch_args(download_dir@, self.config.headless));
        LaunchPlan {
            executable: None,
            user_data_dir: None,
            with_head: false,
            no_sandbox: false,
            request_timeout_secs: None,
            window_size: Some((WINDOW_WIDTH, WINDOW_HEIGHT)),
            args,
            download_dir: Some(download_dir.to_string()),
        }
    }

    /// The plan of a login.
    pub fn login_plan(&self) -> (steps: Vec<Step>)
        ensures
            steps@ == login_steps(),
    {
        let mut steps: Vec<Step> = Vec::new();
        steps.push(Step::required(Operation::Navigate(Address::StatementTop)));
        steps.push(Step::required(Operation::AwaitNavigation));
        steps.push(Step::required(Operation::Find(Element::LoginLink)));
        steps.push(Step::required(Operation::Click(Element::LoginLink)));
        steps.push(Step::required(Operation::Sleep(PAGE_SETTLE_MS)));
        steps.push(Step::required(Operation::Find(Element::UserIdField)));
        steps.push(Step::required(Operation::TypeUserId(Element::UserIdField)));
        steps.push(Step::required(Operation::Find(Element::PasswordField)));
        steps.push(Step::required(Operation::TypePassword(Element::PasswordField)));
        steps.push(Step::required(Operation::Find(Element::LoginButton)));
        steps.push(Step::required(Operation::Click(Element::LoginButton)));
        steps.push(Step::required(Operation::Sleep(PAGE_SETTLE_MS)));
        assert(steps@ =~= login_steps());
        steps
    }

    /// What a login comes to, given what its plan reported: success unless
    /// a step failed, and else the error of that step, whose text is the
    /// step's label followed by the text of the failure.
    pub fn login(&self, outcome: &Outcome) -> (r: Result<(), ScraperError>)
        ensures
            match *outcome {
                Outcome::Failed { op, message } => r matches Err(e) && e.spec_kind()
                    == login_error_kind(op) && e.spec_message() == login_error_label(op)
                    + message@,
                _ => r is Ok,
            },
    {
        match outcome {
            Outcome::Failed { op, message } => {
                let mut text = String::new();
                push_text(&mut text, login_label(*op));
                push_text(&mut text, message.as_str());
                Err(ScraperError::of_kind(login_kind(*op), text.as_str()))
            },
            _ => Ok(()),
        }
    }

    /// The first plan of a download.
    pub fn search_plan(&self) -> (steps: Vec<Step>)
        ensures
            steps@ == search_steps(),
    {
        let mut steps: Vec<Step> = Vec::new();
        steps.push(Step::best_effort(Operation::Run(Script::OpenSearchConditions)));
        steps.push(Step::required(Operation::Sleep(PAGE_SETTLE_MS)));
        steps.push(Step::best_effort(Operation::Run(Script::SelectAllStatements)));
        steps.push(Step::required(Operation::Sleep(OPTION_SETTLE_MS)));
        steps.push(Step::best_effort(Operation::Run(Script::SaveSearchConditions)));
        steps.push(Step::required(Operation::Sleep(SAVE_SETTLE_MS)));
        steps.push(Step::best_effort(Operation::Probe(Probe::SearchButtonClicked)));
        assert(steps@ =~= search_steps());
        steps
    }

    /// The second plan of a download.
    pub fn trigger_plan(&self) -> (steps: Vec<Step>)
        ensures
            steps@ == trigger_steps(),
    {
        let mut steps: Vec<Step> = Vec::new();
        steps.push(Step::required(Operation::Sleep(PAGE_SETTLE_MS)));
        steps.push(
            Step::best_effort(
                Operation::Poll {
                    probe: Probe::DownloadScripts,
                    attempts: SCRIPT_POLLS,
                    interval_ms: SCRIPT_POLL_INTERVAL_MS,
                },
            ),
        );
        steps.push(Step::best_effort(Operation::Run(Script::ClickStatementLink)));
        assert(steps@ =~= trigger_steps());
        steps
    }

    /// The name under which a downloaded statement is kept.
    pub fn rename_csv(&self, file_name: &str) -> (renamed: String)
        ensures
            renamed@ == statement_name(self.config.user_id@, file_name@),
    {
        let mut out = String::new();
        push_text(&mut out, self.config.user_id.as_str());
        push_text(&mut out, "_");
        push_text(&mut out, file_name);
        out
    }

    /// What a download comes to, given what the first plan reported, the
    /// names that the download directory held before the statement link was
    /// clicked, and the listings of the directory that were made afterwards.
    ///
    /// A page without its search button is an error of the missing-element
    /// kind, and nothing is watched for. Else the download directory is
    /// watched as [`trigger_and_await`] says, with the policy of the
    /// statement download: a timeout is its error, and a finished statement
    /// is reported with the name that it is to be given.
    pub fn download(
        &self,
        searched: &Outcome,
        existing: Vec<String>,
        listings: &Vec<Vec<DirEntry>>,
    ) -> (r: Result<DownloadedStatement, ScraperError>)
        ensures
            !searched.spec_flag() ==> (r matches Err(e) && e.spec_kind()
                == ErrorKind::ElementNotFound && e.spec_message() == SEARCH_BUTTON_MISSING@),
            searched.spec_flag() ==> exists|policy: DownloadPolicy| #[trigger]
                is_statement_policy(policy) && download_matches(
                    policy,
                    self.config.user_id@,
                    existing@,
                    listings@,
                    r,
                ),
    {
        if !searched.flag() {
            return Err(ScraperError::of_kind(ErrorKind::ElementNotFound, SEARCH_BUTTON_MISSING));
        }
        let policy = DownloadPolicy::statement();
        match trigger_and_await(existing, listings, &policy) {
            Ok(file_name) => {
                let renamed = self.rename_csv(file_name.as_str());
                let r = Ok(DownloadedStatement { file_name, renamed });
                assert(is_statement_policy(policy) && download_matches(
                    policy,
                    self.config.user_id@,
                    existing@,
                    listings@,
                    r,
                ));
                r
            },
            Err(e) => {
                let r = Err(e);
                assert(is_statement_policy(policy) && download_matches(
                    policy,
                    self.config.user_id@,
                    existing@,
                    listings@,
                    r,
                ));
                r
            },
        }
    }
}

} // verus!
