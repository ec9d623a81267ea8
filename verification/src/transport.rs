//! The static way to a page: one request, and what is made of the reply.
//!
//! The request itself is sent by the caller, through a client whose name
//! resolution goes to the trusted upstream resolver. This module holds
//! what that client is told and turns the reply into records or into a
//! failure.

use vstd::prelude::*;
use crate::error::ScrapeError;
use crate::extract::{
    episodes_from_html, search_results, sources_from_html, spec_episodes_from_html,
    spec_search_results, spec_static_sources,
};
use crate::records::{
    spec_anime_views, spec_episode_views, spec_source_views, Anime, Episode, VideoSource,
};
use crate::site::SiteProfile;

verus! {

/// The port that resolved addresses are paired with.
pub const HTTPS_PORT: u16 = 443;

/// The text by which the client names itself: that of a desktop browser.
pub open spec fn spec_user_agent() -> Seq<char> {
    "Mozilla/5.0 (Windows NT 10.0; Win64; x64) AppleWebKit/537.36 (KHTML, like Gecko) Chrome/91.0.4472.124 Safari/537.36"@
}

/// The text by which the client names itself.
pub fn user_agent() -> (r: String)
    ensures
        r@ == spec_user_agent(),
{
    "Mozilla/5.0 (Windows NT 10.0; Win64; x64) AppleWebKit/537.36 (KHTML, like Gecko) Chrome/91.0.4472.124 Safari/537.36".to_owned()
}

/// How a request ended.
#[derive(Debug, Clone, PartialEq, Eq)]
pub enum FetchOutcome {
    /// A reply came, with this status and this body.
    Replied { status: u16, body: String },
    /// No reply came.
    ConnectionFailed,
}

/// Tells whether a status reports success.
pub open spec fn spec_is_success(status: u16) -> bool {
    200 <= status <= 299
}

/// The markup that a request gave: the body of a reply that reports
/// success. Any other outcome is a transport failure.
pub open spec fn spec_fetched_markup(outcome: FetchOutcome) -> Option<Seq<char>> {
    match outcome {
        FetchOutcome::Replied { status, body } => if spec_is_success(status) {
            Some(body@)
        } else {
            None
        },
        FetchOutcome::ConnectionFailed => None,
    }
}

/// Tells whether a status reports success.
pub fn is_success(status: u16) -> (r: bool)
    ensures
        r == spec_is_success(status),
{
    200 <= status && status <= 299
}

/// The markup that a request gave, or the transport failure.
pub fn fetched_markup(outcome: &FetchOutcome) -> (r: Result<&str, ScrapeError>)
    ensures
        match r {
            Ok(markup) => spec_fetched_markup(*outcome) == Some(markup@),
            Err(e) => spec_fetched_markup(*outcome) is None && e == ScrapeError::Transport,
        },
{
    match outcome {
        FetchOutcome::Replied { status, body } => {
            if is_success(*status) {
                Ok(body.as_str())
            } else {
                Err(ScrapeError::Transport)
            }
        },
        FetchOutcome::ConnectionFailed => Err(ScrapeError::Transport),
    }
}

/// Turns the reply to a search request into catalog entries.
pub fn search_from_fetch(profile: &SiteProfile, outcome: &FetchOutcome) -> (r: Result<
    Vec<Anime>,
    ScrapeError,
>)
    ensures
        match r {
            Ok(list) => spec_fetched_markup(*outcome) matches Some(markup) && spec_anime_views(
                list@,
            ) == spec_search_results(*profile, markup),
            Err(e) => spec_fetched_markup(*outcome) is None && e == ScrapeError::Transport,
        },
{
    match fetched_markup(outcome) {
        Ok(markup) => Ok(search_results(profile, markup)),
        Err(e) => Err(e),
    }
}

/// Turns the reply to a request for an episode page into episodes, for a
/// site whose episode pages need no rendering.
pub fn episodes_from_fetch(profile: &SiteProfile, outcome: &FetchOutcome) -> (r: Result<
    Vec<Episode>,
    ScrapeError,
>)
    ensures
        match r {
            Ok(list) => spec_fetched_markup(*outcome) matches Some(markup) && spec_episode_views(
                list@,
            ) == spec_episodes_from_html(*profile, markup),
            Err(e) => spec_fetched_markup(*outcome) is None && e == ScrapeError::Transport,
        },
{
    match fetched_markup(outcome) {
        Ok(markup) => Ok(episodes_from_html(profile, markup)),
        Err(e) => Err(e),
    }
}

/// Turns the reply to a request for an episode page into video sources,
/// for a site whose sources are read off the markup as fetched.
pub fn sources_from_fetch(profile: &SiteProfile, outcome: &FetchOutcome) -> (r: Result<
    Vec<VideoSource>,
    ScrapeError,
>)
    ensures
        match r {
            Ok(list) => spec_fetched_markup(*outcome) matches Some(markup) && spec_source_views(
                list@,
            ) == spec_static_sources(*profile, markup),
            Err(e) => spec_fetched_markup(*outcome) is None && e == ScrapeError::Transport,
        },
{
    match fetched_markup(outcome) {
        Ok(markup) => Ok(sources_from_html(profile, markup)),
        Err(e) => Err(e),
    }
}

} // verus!
