//! The error kinds of the engine and which of them are worth a retry.

use vstd::prelude::*;

verus! {

/// One concrete failure of a scrape, with the text that describes it.
#[derive(Debug)]
pub enum ScraperError {
    /// The browser could not be configured, launched or given a page.
    BrowserInit(String),
    /// A navigation did not complete.
    Navigation(String),
    /// The login form was missing or the login could not be confirmed.
    Login(String),
    /// A download could not be named or moved.
    Download(String),
    /// A bounded wait ran out.
    Timeout(String),
    /// A required element was not on the page.
    ElementNotFound(String),
    /// A file operation failed; the text is that of the operating system.
    FileIO(String),
    /// The period holds no usage data.
    NoUsageData(String),
    /// The payload did not have the expected shape.
    Extraction(String),
    /// A script evaluation on the page failed.
    JavaScript(String),
    /// The session expired or was redirected to the login page.
    Session(String),
    /// Forwarding to the upstream service failed.
    Grpc(String),
    /// Forwarding kept failing until the retries ran out.
    GrpcConnectionFailed { retries: u32, message: String },
    /// A JSON text could not be read or written.
    Json(String),
}

/// The kind of a failure, without its text.
#[derive(Clone, Copy, Debug, PartialEq, Eq, Structural)]
pub enum ErrorKind {
    BrowserInit,
    Navigation,
    Login,
    Download,
    Timeout,
    ElementNotFound,
    FileIO,
    NoUsageData,
    Extraction,
    JavaScript,
    Session,
    Grpc,
    GrpcConnectionFailed,
    Json,
}

impl ScraperError {
    /// The kind of this failure.
    pub open spec fn spec_kind(&self) -> ErrorKind {
        match self {
            ScraperError::BrowserInit(_) => ErrorKind::BrowserInit,
            ScraperError::Navigation(_) => ErrorKind::Navigation,
            ScraperError::Login(_) => ErrorKind::Login,
            ScraperError::Download(_) => ErrorKind::Download,
            ScraperError::Timeout(_) => ErrorKind::Timeout,
            ScraperError::ElementNotFound(_) => ErrorKind::ElementNotFound,
            ScraperError::FileIO(_) => ErrorKind::FileIO,
            ScraperError::NoUsageData(_) => ErrorKind::NoUsageData,
            ScraperError::Extraction(_) => ErrorKind::Extraction,
            ScraperError::JavaScript(_) => ErrorKind::JavaScript,
            ScraperError::Session(_) => ErrorKind::Session,
            ScraperError::Grpc(_) => ErrorKind::Grpc,
            ScraperError::GrpcConnectionFailed { .. } => ErrorKind::GrpcConnectionFailed,
            ScraperError::Json(_) => ErrorKind::Json,
        }
    }

    /// The text that this failure carries.
    pub open spec fn spec_message(&self) -> Seq<char> {
        match self {
            ScraperError::BrowserInit(m) => m@,
            ScraperError::Navigation(m) => m@,
            ScraperError::Login(m) => m@,
            ScraperError::Download(m) => m@,
            ScraperError::Timeout(m) => m@,
            ScraperError::ElementNotFound(m) => m@,
            ScraperError::FileIO(m) => m@,
            ScraperError::NoUsageData(m) => m@,
            ScraperError::Extraction(m) => m@,
            ScraperError::JavaScript(m) => m@,
            ScraperError::Session(m) => m@,
            ScraperError::Grpc(m) => m@,
            ScraperError::GrpcConnectionFailed { message, .. } => message@,
            ScraperError::Json(m) => m@,
        }
    }

    /// The kind of this failure.
    #[verifier::when_used_as_spec(spec_kind)]
    pub fn kind(&self) -> (k: ErrorKind)
        ensures
            k == self.spec_kind(),
    {
        match self {
            ScraperError::BrowserInit(_) => ErrorKind::BrowserInit,
            ScraperError::Navigation(_) => ErrorKind::Navigation,
            ScraperError::Login(_) => ErrorKind::Login,
            ScraperError::Download(_) => ErrorKind::Download,
            ScraperError::Timeout(_) => ErrorKind::Timeout,
            ScraperError::ElementNotFound(_) => ErrorKind::ElementNotFound,
            ScraperError::FileIO(_) => ErrorKind::FileIO,
            ScraperError::NoUsageData(_) => ErrorKind::NoUsageData,
            ScraperError::Extraction(_) => ErrorKind::Extraction,
            ScraperError::JavaScript(_) => ErrorKind::JavaScript,
            ScraperError::Session(_) => ErrorKind::Session,
            ScraperError::Grpc(_) => ErrorKind::Grpc,
            ScraperError::GrpcConnectionFailed { .. } => ErrorKind::GrpcConnectionFailed,
            ScraperError::Json(_) => ErrorKind::Json,
        }
    }

    /// The text that this failure carries.
    pub fn message(&self) -> (m: &str)
        ensures
            m@ == self.spec_message(),
    {
        match self {
            ScraperError::BrowserInit(m) => m.as_str(),
            ScraperError::Navigation(m) => m.as_str(),
            ScraperError::Login(m) => m.as_str(),
            ScraperError::Download(m) => m.as_str(),
            ScraperError::Timeout(m) => m.as_str(),
            ScraperError::ElementNotFound(m) => m.as_str(),
            ScraperError::FileIO(m) => m.as_str(),
            ScraperError::NoUsageData(m) => m.as_str(),
            ScraperError::Extraction(m) => m.as_str(),
            ScraperError::JavaScript(m) => m.as_str(),
            ScraperError::Session(m) => m.as_str(),
            ScraperError::Grpc(m) => m.as_str(),
            ScraperError::GrpcConnectionFailed { message, .. } => message.as_str(),
            ScraperError::Json(m) => m.as_str(),
        }
    }

    /// The failure of the given kind with the given text. For the kind of
    /// exhausted retries the count is 0: that failure is made by the retry
    /// executor, which knows the count.
    pub fn of_kind(kind: ErrorKind, message: &str) -> (e: Self)
        ensures
            e.spec_kind() == kind,
            e.spec_message() == message@,
            e matches ScraperError::GrpcConnectionFailed { retries, .. } ==> retries == 0,
    {
        let m = message.to_string();
        match kind {
            ErrorKind::BrowserInit => ScraperError::BrowserInit(m),
            ErrorKind::Navigation => ScraperError::Navigation(m),
            ErrorKind::Login => ScraperError::Login(m),
            ErrorKind::Download => ScraperError::Download(m),
            ErrorKind::Timeout => ScraperError::Timeout(m),
            ErrorKind::ElementNotFound => ScraperError::ElementNotFound(m),
            ErrorKind::FileIO => ScraperError::FileIO(m),
            ErrorKind::NoUsageData => ScraperError::NoUsageData(m),
            ErrorKind::Extraction => ScraperError::Extraction(m),
            ErrorKind::JavaScript => ScraperError::JavaScript(m),
            ErrorKind::Session => ScraperError::Session(m),
            ErrorKind::Grpc => ScraperError::Grpc(m),
            ErrorKind::GrpcConnectionFailed => ScraperError::GrpcConnectionFailed {
                retries: 0,
                message: m,
            },
            ErrorKind::Json => ScraperError::Json(m),
        }
    }

    /// Transient failures: navigation, timeouts, upstream forwarding and
    /// browser start-up. Everything else is structural.
    pub open spec fn spec_is_retryable(&self) -> bool {
        self is Navigation || self is Timeout || self is Grpc || self is BrowserInit
    }

    /// Whether a retry may help.
    #[verifier::when_used_as_spec(spec_is_retryable)]
    pub fn is_retryable(&self) -> (r: bool)
        ensures
            r == self.spec_is_retryable(),
    {
        match self {
            ScraperError::Navigation(_) => true,
            ScraperError::Timeout(_) => true,
            ScraperError::Grpc(_) => true,
            ScraperError::BrowserInit(_) => true,
            _ => false,
        }
    }
}

} // verus!
