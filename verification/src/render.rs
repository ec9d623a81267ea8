//! What the browser is told to do, and what is made of what it returns.
//!
//! The browser itself is run by the caller: this module says how it is to
//! be launched and turns the outcome into episodes or into a failure.

use vstd::prelude::*;
use crate::error::ScrapeError;
use crate::extract::{episodes_from_html, spec_episodes_from_html};
use crate::records::{spec_episode_views, Episode, EpisodeView};
use crate::site::{spec_domain, spec_media_url, SiteProfile};
use crate::text::{append_chars, chars_of, string_of};

verus! {

/// The browser argument that maps the host `domain` to the address `ip`,
/// whatever the browser's own resolver would say.
pub open spec fn spec_host_rule(domain: Seq<char>, ip: Seq<char>) -> Seq<char> {
    "--host-resolver-rules=MAP "@ + domain + " "@ + ip
}

/// The browser argument that maps the host `domain` to the address `ip`.
pub fn host_rule(domain: &str, ip: &str) -> (r: String)
    ensures
        r@ == spec_host_rule(domain@, ip@),
{
    let mut out: Vec<char> = chars_of("--host-resolver-rules=MAP ");
    append_chars(&mut out, &chars_of(domain));
    append_chars(&mut out, &chars_of(" "));
    append_chars(&mut out, &chars_of(ip));
    string_of(&out)
}

/// How to launch the browser for one page, and what to wait for.
#[derive(Debug, Clone, PartialEq, Eq)]
pub struct LaunchPlan {
    /// Run without a window.
    pub headless: bool,
    /// Run inside the browser's own sandbox.
    pub sandbox: bool,
    /// Accept certificates that do not match the host.
    pub ignore_certificate_errors: bool,
    /// Further arguments of the browser's command line.
    pub args: Vec<String>,
    /// The page to open.
    pub url: String,
    /// The element whose appearance shows that the page is rendered.
    pub wait_selector: String,
    /// How many seconds to wait for that element.
    pub wait_seconds: u64,
}

/// Plans the rendering of the episode page of the entry `anime_id`, with
/// the site's host mapped to the address `ip`. The browser runs headless
/// and without sandbox, and accepts the certificate although the mapping
/// breaks the match of host and certificate.
pub fn plan_episodes_render(profile: &SiteProfile, anime_id: &str, ip: &str) -> (plan: LaunchPlan)
    ensures
        plan.headless,
        !plan.sandbox,
        plan.ignore_certificate_errors,
        plan.args@.len() == 2,
        plan.args@[0]@ == "--no-sandbox"@,
        plan.args@[1]@ == spec_host_rule(spec_domain(profile.base_url@), ip@),
        plan.url@ == spec_media_url(profile.base_url@, anime_id@),
        plan.wait_selector@ == profile.episodes_wait_selector@,
        plan.wait_seconds == profile.wait_seconds,
{
    let domain: String = profile.domain();
    let mut args: Vec<String> = Vec::new();
    args.push("--no-sandbox".to_owned());
    args.push(host_rule(domain.as_str(), ip));
    LaunchPlan {
        headless: true,
        sandbox: false,
        ignore_certificate_errors: true,
        args,
        url: profile.episodes_url(anime_id),
        wait_selector: profile.episodes_wait_selector.clone(),
        wait_seconds: profile.wait_seconds,
    }
}

/// How a rendering ended.
#[derive(Debug, Clone, PartialEq, Eq)]
pub enum RenderOutcome {
    /// The awaited element appeared; this is the rendered markup.
    Rendered(String),
    /// The browser or its tab could not be started.
    LaunchFailed,
    /// The page could not be opened.
    NavigationFailed,
    /// The awaited element did not appear within the bound.
    TimedOut,
    /// The rendered markup could not be read.
    ContentFailed,
}

/// The episodes that a rendering gives, in the order of presentation, or
/// the failure that it ended in.
pub open spec fn spec_episodes_from_render(p: SiteProfile, outcome: RenderOutcome) -> Result<
    Seq<EpisodeView>,
    ScrapeError,
> {
    match outcome {
        RenderOutcome::Rendered(html) => Ok(spec_episodes_from_html(p, html@)),
        RenderOutcome::LaunchFailed => Err(ScrapeError::BrowserLaunch),
        RenderOutcome::NavigationFailed => Err(ScrapeError::Navigation),
        RenderOutcome::TimedOut => Err(ScrapeError::RenderTimeout),
        RenderOutcome::ContentFailed => Err(ScrapeError::ContentRetrieval),
    }
}

/// Turns the outcome of a rendering into the list of episodes. Only
/// rendered markup gives a list; a rendering that timed out gives the
/// time-out failure and no episode at all.
pub fn episodes_from_render(profile: &SiteProfile, outcome: &RenderOutcome) -> (r: Result<
    Vec<Episode>,
    ScrapeError,
>)
    ensures
        match r {
            Ok(list) => spec_episodes_from_render(*profile, *outcome) == Ok::<
                Seq<EpisodeView>,
                ScrapeError,
            >(spec_episode_views(list@)),
            Err(e) => spec_episodes_from_render(*profile, *outcome) == Err::<
                Seq<EpisodeView>,
                ScrapeError,
            >(e),
        },
        *outcome is TimedOut ==> r == Err::<Vec<Episode>, ScrapeError>(ScrapeError::RenderTimeout),
{
    match outcome {
        RenderOutcome::Rendered(html) => Ok(episodes_from_html(profile, html.as_str())),
        RenderOutcome::LaunchFailed => Err(ScrapeError::BrowserLaunch),
        RenderOutcome::NavigationFailed => Err(ScrapeError::Navigation),
        RenderOutcome::TimedOut => Err(ScrapeError::RenderTimeout),
        RenderOutcome::ContentFailed => Err(ScrapeError::ContentRetrieval),
    }
}

} // verus!
