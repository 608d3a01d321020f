//! What a scraper does, step by step.

use vstd::prelude::*;

use crate::error::ScraperError;

verus! {

/// A step of a scraper's run.
#[derive(Clone, Copy, Debug, PartialEq, Eq, Structural)]
pub enum RunStep {
    Initialize,
    Login,
    Download,
    Close,
}

/// The step that follows a step that succeeded; `None` after the last.
pub open spec fn step_after(step: RunStep) -> Option<RunStep> {
    match step {
        RunStep::Initialize => Some(RunStep::Login),
        RunStep::Login => Some(RunStep::Download),
        RunStep::Download => Some(RunStep::Close),
        RunStep::Close => None,
    }
}

/// How a run goes on after a step: with the next step if the step
/// succeeded and was not the last, and not at all otherwise. A run is over
/// after the first step that fails.
pub fn next_step(step: RunStep, succeeded: bool) -> (next: Option<RunStep>)
    ensures
        next == (if succeeded {
            step_after(step)
        } else {
            None
        }),
{
    if !succeeded {
        return None;
    }
    match step {
        RunStep::Initialize => Some(RunStep::Login),
        RunStep::Login => Some(RunStep::Download),
        RunStep::Download => Some(RunStep::Close),
        RunStep::Close => None,
    }
}

/// What a run returns, given how each of its steps ended. The steps are
/// taken in order, and the first failure is the run's: the steps after it
/// are not looked at. A run without a failure returns the path of the
/// download.
pub fn run_result(
    initialized: Result<(), ScraperError>,
    logged_in: Result<(), ScraperError>,
    downloaded: Result<String, ScraperError>,
    closed: Result<(), ScraperError>,
) -> (r: Result<String, ScraperError>)
    ensures
        r == (match (initialized, logged_in, downloaded, closed) {
            (Err(e), _, _, _) => Err::<String, ScraperError>(e),
            (Ok(_), Err(e), _, _) => Err(e),
            (Ok(_), Ok(_), Err(e), _) => Err(e),
            (Ok(_), Ok(_), Ok(_), Err(e)) => Err(e),
            (Ok(_), Ok(_), Ok(path), Ok(_)) => Ok(path),
        }),
{
    match initialized {
        Err(e) => {
            return Err(e);
        },
        Ok(_) => {},
    }
    match logged_in {
        Err(e) => {
            return Err(e);
        },
        Ok(_) => {},
    }
    let path = match downloaded {
        Err(e) => {
            return Err(e);
        },
        Ok(path) => path,
    };
    match closed {
        Err(e) => Err(e),
        Ok(_) => Ok(path),
    }
}

/// A scraper: something that can start a browser, log in, download a file
/// and let the browser go.
///
/// What each step does is the implementor's, and the implementor may say it
/// in four relations, one for each step: whether the step, taken on `self`,
/// may leave the scraper as `after` and return `r`. An implementor that
/// says nothing allows its steps everything. A run is stated over these
/// relations.
pub trait Scraper: Sized {
    /// `initialize` may take the scraper from `self` to `after` and return
    /// `r`.
    open spec fn initialized(&self, after: &Self, r: Result<(), ScraperError>) -> bool {
        true
    }

    /// `login` may take the scraper from `self` to `after` and return `r`.
    open spec fn logged_in(&self, after: &Self, r: Result<(), ScraperError>) -> bool {
        true
    }

    /// `download` may take the scraper from `self` to `after` and return
    /// `r`.
    open spec fn downloaded(&self, after: &Self, r: Result<String, ScraperError>) -> bool {
        true
    }

    /// `close` may take the scraper from `self` to `after` and return `r`.
    open spec fn closed(&self, after: &Self, r: Result<(), ScraperError>) -> bool {
        true
    }

    /// Starts the browser.
    fn initialize(&mut self) -> (r: Result<(), ScraperError>)
        ensures
            old(self).initialized(final(self), r),
    ;

    /// Logs in.
    fn login(&mut self) -> (r: Result<(), ScraperError>)
        ensures
            old(self).logged_in(final(self), r),
    ;

    /// Downloads the file and returns its path.
    fn download(&mut self) -> (r: Result<String, ScraperError>)
        ensures
            old(self).downloaded(final(self), r),
    ;

    /// Lets the browser go.
    fn close(&mut self) -> (r: Result<(), ScraperError>)
        ensures
            old(self).closed(final(self), r),
    ;

    /// Runs the four steps in order and returns the path of the download.
    ///
    /// Each step is taken on the scraper as the step before left it. The
    /// first step that fails ends the run: its error is the run's, the
    /// scraper stays as that step left it, and no later step is taken. A run
    /// without a failure returns the path that the download gave.
    fn execute(&mut self) -> (r: Result<String, ScraperError>)
        ensures
            ({
                ||| r matches Err(e) && old(self).initialized(final(self), Err(e))
                ||| exists|with_browser: Self| #[trigger]
                    old(self).initialized(&with_browser, Ok(())) && ({
                        ||| r matches Err(e) && with_browser.logged_in(final(self), Err(e))
                        ||| exists|inside: Self| #[trigger]
                            with_browser.logged_in(&inside, Ok(())) && ({
                                ||| r matches Err(e) && inside.downloaded(final(self), Err(e))
                                ||| exists|loaded: Self, path: String| #[trigger]
                                    inside.downloaded(&loaded, Ok(path)) && ({
                                        ||| r == Ok::<String, ScraperError>(path)
                                            && loaded.closed(final(self), Ok(()))
                                        ||| r matches Err(e) && loaded.closed(
                                            final(self),
                                            Err(e),
                                        )
                                    })
                            })
                    })
            }),
    {
        let ghost start = *self;
        let initialized = self.initialize();
        let ghost with_browser = *self;
        match initialized {
            Err(e) => {
                return Err(e);
            },
            Ok(_) => {},
        }
        assert(initialized->Ok_0 == ());
        assert(start.initialized(&with_browser, Ok(())));
        let logged_in = self.login();
        let ghost inside = *self;
        match logged_in {
            Err(e) => {
                return Err(e);
            },
            Ok(_) => {},
        }
        assert(logged_in->Ok_0 == ());
        assert(with_browser.logged_in(&inside, Ok(())));
        let downloaded = self.download();
        let ghost loaded = *self;
        let path = match downloaded {
            Err(e) => {
                return Err(e);
            },
            Ok(path) => path,
        };
        assert(inside.downloaded(&loaded, Ok(path)));
        let closed = self.close();
        match closed {
            Err(e) => Err(e),
            Ok(_) => {
                assert(closed->Ok_0 == ());
                Ok(path)
            },
        }
    }
}

} // verus!
