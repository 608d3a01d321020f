use scraper_service::download::DirEntry;
use scraper_service::surface::{Address, Element, Operation, Outcome, Probe, Script, Step};
use scraper_service::{EtcScraper, ScraperConfig, ScraperError};

fn scraper() -> EtcScraper {
    EtcScraper::new(ScraperConfig::new("user", "pass"))
}

fn failed(op: Operation, message: &str) -> Outcome {
    Outcome::Failed { op, message: message.to_string() }
}

fn entry(name: &str, size: u64) -> DirEntry {
    DirEntry { name: name.to_string(), size }
}

#[test]
fn how_the_browser_of_a_download_is_started() {
    let plan = scraper().initialize("/tmp/downloads");
    assert_eq!(plan.executable, None);
    assert_eq!(plan.user_data_dir, None);
    assert!(!plan.with_head);
    assert!(!plan.no_sandbox);
    assert_eq!(plan.request_timeout_secs, None);
    assert_eq!(plan.window_size, Some((1280, 800)));
    assert_eq!(plan.args, vec!["--download.default_directory=/tmp/downloads", "--headless=new"]);
    assert_eq!(plan.download_dir, Some("/tmp/downloads".to_string()));

    let shown = EtcScraper::new(ScraperConfig::new("user", "pass").with_headless(false));
    assert_eq!(shown.initialize("d").args, vec!["--download.default_directory=d"]);
    assert!(!shown.initialize("d").with_head);
}

#[test]
fn the_plan_of_a_login() {
    let required = |op| Step { op, best_effort: false };
    assert_eq!(
        scraper().login_plan(),
        vec![
            required(Operation::Navigate(Address::StatementTop)),
            required(Operation::AwaitNavigation),
            required(Operation::Find(Element::LoginLink)),
            required(Operation::Click(Element::LoginLink)),
            required(Operation::Sleep(3000)),
            required(Operation::Find(Element::UserIdField)),
            required(Operation::TypeUserId(Element::UserIdField)),
            required(Operation::Find(Element::PasswordField)),
            required(Operation::TypePassword(Element::PasswordField)),
            required(Operation::Find(Element::LoginButton)),
            required(Operation::Click(Element::LoginButton)),
            required(Operation::Sleep(3000)),
        ]
    );
}

#[test]
fn the_error_of_each_step_of_a_login() {
    let s = scraper();
    assert!(s.login(&Outcome::Completed).is_ok());
    assert!(s.login(&Outcome::Flag(false)).is_ok());
    assert!(matches!(
        s.login(&failed(Operation::Navigate(Address::StatementTop), "refused")),
        Err(ScraperError::Navigation(ref text)) if text == "refused"
    ));
    assert!(matches!(
        s.login(&failed(Operation::AwaitNavigation, "slow")),
        Err(ScraperError::Navigation(ref text)) if text == "slow"
    ));
    assert!(matches!(
        s.login(&failed(Operation::Find(Element::LoginLink), "none")),
        Err(ScraperError::ElementNotFound(ref text)) if text == "ログインリンク: none"
    ));
    assert!(matches!(
        s.login(&failed(Operation::Click(Element::LoginLink), "gone")),
        Err(ScraperError::Navigation(ref text)) if text == "ログインリンククリック: gone"
    ));
    assert!(matches!(
        s.login(&failed(Operation::Find(Element::UserIdField), "none")),
        Err(ScraperError::ElementNotFound(ref text)) if text == "ユーザーID入力欄: none"
    ));
    assert!(matches!(
        s.login(&failed(Operation::TypeUserId(Element::UserIdField), "x")),
        Err(ScraperError::Login(ref text)) if text == "ユーザーID入力: x"
    ));
    assert!(matches!(
        s.login(&failed(Operation::Find(Element::PasswordField), "none")),
        Err(ScraperError::ElementNotFound(ref text)) if text == "パスワード入力欄: none"
    ));
    assert!(matches!(
        s.login(&failed(Operation::TypePassword(Element::PasswordField), "x")),
        Err(ScraperError::Login(ref text)) if text == "パスワード入力: x"
    ));
    assert!(matches!(
        s.login(&failed(Operation::Find(Element::LoginButton), "none")),
        Err(ScraperError::ElementNotFound(ref text)) if text == "ログインボタン: none"
    ));
    assert!(matches!(
        s.login(&failed(Operation::Click(Element::LoginButton), "x")),
        Err(ScraperError::Login(ref text)) if text == "ログインボタンクリック: x"
    ));
}

#[test]
fn the_plans_of_a_download() {
    let required = |op| Step { op, best_effort: false };
    let best_effort = |op| Step { op, best_effort: true };
    assert_eq!(
        scraper().search_plan(),
        vec![
            best_effort(Operation::Run(Script::OpenSearchConditions)),
            required(Operation::Sleep(3000)),
            best_effort(Operation::Run(Script::SelectAllStatements)),
            required(Operation::Sleep(1000)),
            best_effort(Operation::Run(Script::SaveSearchConditions)),
            required(Operation::Sleep(2000)),
            best_effort(Operation::Probe(Probe::SearchButtonClicked)),
        ]
    );
    assert_eq!(
        scraper().trigger_plan(),
        vec![
            required(Operation::Sleep(3000)),
            best_effort(Operation::Poll {
                probe: Probe::DownloadScripts,
                attempts: 30,
                interval_ms: 1000
            }),
            best_effort(Operation::Run(Script::ClickStatementLink)),
        ]
    );
}

#[test]
fn the_name_that_a_statement_is_given() {
    assert_eq!(scraper().rename_csv("statement.csv"), "user_statement.csv");
    assert_eq!(scraper().rename_csv(""), "user_");
    assert_eq!(EtcScraper::new(ScraperConfig::default()).rename_csv("a.csv"), "_a.csv");
}

#[test]
fn a_download_from_what_was_observed() {
    let s = scraper();
    let listings = vec![
        vec![entry("old.csv", 10)],
        vec![entry("old.csv", 10), entry("new.csv.crdownload", 3)],
        vec![entry("old.csv", 10), entry("new.csv", 30)],
    ];
    let found = s.download(&Outcome::Flag(true), vec!["old.csv".to_string()], &listings).unwrap();
    assert_eq!(found.file_name, "new.csv");
    assert_eq!(found.renamed, "user_new.csv");

    let opaque = vec![vec![entry("0b3c", 0)], vec![entry("0b3c", 512)]];
    let found = s.download(&Outcome::Flag(true), vec![], &opaque).unwrap();
    assert_eq!(found.file_name, "0b3c.csv");
    assert_eq!(found.renamed, "user_0b3c.csv");

    let missing = s.download(&Outcome::Flag(false), vec![], &listings);
    assert!(matches!(
        missing,
        Err(ScraperError::ElementNotFound(ref text))
            if text == "検索ボタン (input[name='focusTarget']) が見つかりません"
    ));
    assert!(matches!(
        s.download(&Outcome::Completed, vec![], &listings),
        Err(ScraperError::ElementNotFound(_))
    ));
    assert!(matches!(
        s.download(&Outcome::Flag(true), vec!["old.csv".to_string()], &listings[..2].to_vec_of()),
        Err(ScraperError::Timeout(_))
    ));
}

trait ToVecOf {
    fn to_vec_of(&self) -> Vec<Vec<DirEntry>>;
}

impl ToVecOf for [Vec<DirEntry>] {
    fn to_vec_of(&self) -> Vec<Vec<DirEntry>> {
        self.iter()
            .map(|listing| listing.iter().map(|e| entry(&e.name, e.size)).collect())
            .collect()
    }
}
