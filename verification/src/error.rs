//! The failures of an operation, and what a caller of the service sees of them.

use vstd::prelude::*;
use crate::resolver::ResolveError;

verus! {

/// The five families of failure.
#[derive(Debug, Clone, Copy, PartialEq, Eq, Structural)]
pub enum ErrorKind {
    /// The host name could not be resolved.
    Resolution,
    /// The page could not be fetched.
    Transport,
    /// The browser could not render the page.
    Render,
    /// The page lacks something that has no fallback.
    Extraction,
    /// A program that is needed is not installed.
    Dependency,
}

/// Why an operation failed.
#[derive(Debug, Clone, Copy, PartialEq, Eq, Structural)]
pub enum ScrapeError {
    /// The query for the host's address failed.
    LookupFailed,
    /// The query for the host's address returned none.
    NoAddress,
    /// The connection failed or the status was not a success.
    Transport,
    /// The browser or its driver could not be started or reached.
    BrowserLaunch,
    /// The browser could not open the page.
    Navigation,
    /// The awaited element did not appear in time.
    RenderTimeout,
    /// The rendered markup could not be read.
    ContentRetrieval,
    /// A required element is absent from the page.
    Extraction,
    /// A required program was not found on the host.
    MissingBinary,
}

/// The family of each failure.
pub open spec fn spec_kind(e: ScrapeError) -> ErrorKind {
    match e {
        ScrapeError::LookupFailed | ScrapeError::NoAddress => ErrorKind::Resolution,
        ScrapeError::Transport => ErrorKind::Transport,
        ScrapeError::BrowserLaunch
        | ScrapeError::Navigation
        | ScrapeError::RenderTimeout
        | ScrapeError::ContentRetrieval => ErrorKind::Render,
        ScrapeError::Extraction => ErrorKind::Extraction,
        ScrapeError::MissingBinary => ErrorKind::Dependency,
    }
}

/// The failure that a failed resolution is reported as.
pub open spec fn spec_from_resolve(e: ResolveError) -> ScrapeError {
    match e {
        ResolveError::LookupFailed => ScrapeError::LookupFailed,
        ResolveError::NoAddress => ScrapeError::NoAddress,
    }
}

/// What each failure is called in a log.
pub open spec fn spec_message(e: ScrapeError) -> Seq<char> {
    match e {
        ScrapeError::LookupFailed => "address lookup failed"@,
        ScrapeError::NoAddress => "no address found"@,
        ScrapeError::Transport => "transport failed"@,
        ScrapeError::BrowserLaunch => "browser could not be started"@,
        ScrapeError::Navigation => "page could not be opened"@,
        ScrapeError::RenderTimeout => "render timeout"@,
        ScrapeError::ContentRetrieval => "rendered content could not be read"@,
        ScrapeError::Extraction => "required element is absent"@,
        ScrapeError::MissingBinary => "required program not found"@,
    }
}

impl ScrapeError {
    /// What this failure is called in a log.
    pub fn message(&self) -> (r: String)
        ensures
            r@ == spec_message(*self),
    {
        match self {
            ScrapeError::LookupFailed => "address lookup failed".to_owned(),
            ScrapeError::NoAddress => "no address found".to_owned(),
            ScrapeError::Transport => "transport failed".to_owned(),
            ScrapeError::BrowserLaunch => "browser could not be started".to_owned(),
            ScrapeError::Navigation => "page could not be opened".to_owned(),
            ScrapeError::RenderTimeout => "render timeout".to_owned(),
            ScrapeError::ContentRetrieval => "rendered content could not be read".to_owned(),
            ScrapeError::Extraction => "required element is absent".to_owned(),
            ScrapeError::MissingBinary => "required program not found".to_owned(),
        }
    }

    /// The family of this failure.
    pub fn kind(&self) -> (r: ErrorKind)
        ensures
            r == spec_kind(*self),
    {
        match self {
            ScrapeError::LookupFailed => ErrorKind::Resolution,
            ScrapeError::NoAddress => ErrorKind::Resolution,
            ScrapeError::Transport => ErrorKind::Transport,
            ScrapeError::BrowserLaunch => ErrorKind::Render,
            ScrapeError::Navigation => ErrorKind::Render,
            ScrapeError::RenderTimeout => ErrorKind::Render,
            ScrapeError::ContentRetrieval => ErrorKind::Render,
            ScrapeError::Extraction => ErrorKind::Extraction,
            ScrapeError::MissingBinary => ErrorKind::Dependency,
        }
    }

    /// The failure that a failed resolution is reported as.
    pub fn from_resolve(e: ResolveError) -> (r: ScrapeError)
        ensures
            r == spec_from_resolve(e),
    {
        match e {
            ResolveError::LookupFailed => ScrapeError::LookupFailed,
            ResolveError::NoAddress => ScrapeError::NoAddress,
        }
    }
}

/// The three operations that the service offers.
#[derive(Debug, Clone, Copy, PartialEq, Eq, Structural)]
pub enum Operation {
    /// Search the catalog.
    Search,
    /// List the episodes of an entry.
    Episodes,
    /// List the video sources of an episode.
    Sources,
}

/// The status that a caller sees when an operation failed: a failed search
/// is a server error, a failed listing is reported as not found.
pub open spec fn spec_failure_status(op: Operation) -> u16 {
    match op {
        Operation::Search => 500,
        Operation::Episodes => 404,
        Operation::Sources => 404,
    }
}

/// The status that a caller sees when `op` failed, whatever the failure.
pub fn failure_status(op: Operation) -> (r: u16)
    ensures
        r == spec_failure_status(op),
{
    match op {
        Operation::Search => 500,
        Operation::Episodes => 404,
        Operation::Sources => 404,
    }
}

} // verus!
