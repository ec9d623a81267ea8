use anime_scraper::error::{failure_status, ErrorKind, Operation, ScrapeError};
use anime_scraper::records::VideoSource;
use anime_scraper::resolver::{Answer, Lookup, ResolveError, ResolverCache};
use anime_scraper::session::{
    advance, after_step, browser_arguments, choose_binaries, driver_url, next_phase,
    phase_failure, port_argument, start, ButtonNext, ButtonStep, Phase, SessionState,
    DRIVER_PORT, SETTLE_SECONDS,
};
use anime_scraper::sources::{
    assign_sources, collect_outcomes, frame_outcome, is_resolved, server_button, unresolved_url,
    ButtonOutcome, ServerButton, SkipReason,
};

fn button(label: &str, active: bool) -> ServerButton {
    ServerButton { label: label.to_string(), active }
}

#[test]
fn second_lookup_needs_no_query() {
    let mut cache = ResolverCache::new("animeav1.com");
    assert_eq!(cache.hostname(), "animeav1.com");
    assert_eq!(cache.begin(), Lookup::Query("animeav1.com".to_string()));
    let answer = Answer::Addresses(vec!["104.21.5.7".to_string(), "172.67.1.1".to_string()]);
    assert_eq!(cache.complete(&answer), Ok("104.21.5.7".to_string()));
    assert_eq!(cache.begin(), Lookup::Cached("104.21.5.7".to_string()));
    assert_eq!(cache.cached(), Some("104.21.5.7".to_string()));
}

#[test]
fn failed_lookup_does_not_poison_the_cache() {
    let mut cache = ResolverCache::new("animeav1.com");
    assert_eq!(cache.complete(&Answer::Failed), Err(ResolveError::LookupFailed));
    assert_eq!(cache.cached(), None);
    assert_eq!(cache.complete(&Answer::Addresses(Vec::new())), Err(ResolveError::NoAddress));
    assert_eq!(cache.begin(), Lookup::Query("animeav1.com".to_string()));
    assert_eq!(
        cache.complete(&Answer::Addresses(vec!["1.2.3.4".to_string()])),
        Ok("1.2.3.4".to_string())
    );
    assert_eq!(cache.complete(&Answer::Failed), Err(ResolveError::LookupFailed));
    assert_eq!(cache.begin(), Lookup::Cached("1.2.3.4".to_string()));
}

#[test]
fn active_button_gets_the_frame() {
    let buttons = vec![button("Mega", false), button(" Stream ", true), button("Fembed", false)];
    let out = assign_sources(&buttons, Some("https://player.example/embed/1"));
    assert_eq!(out.len(), 3);
    assert_eq!(out[1].url, "https://player.example/embed/1");
    assert_eq!(out[1].server, "Stream");
    assert_eq!(out[0].url, unresolved_url());
    assert_eq!(out[2].url, unresolved_url());
    assert_eq!(out[0].server, "Mega");
    assert!(out.iter().all(|s| s.quality.is_none()));
    assert!(is_resolved(&out[1]));
    assert!(!is_resolved(&out[0]));
}

#[test]
fn without_frame_every_source_is_unresolved() {
    let buttons = vec![button("Mega", true)];
    assert_eq!(assign_sources(&buttons, None)[0].url, unresolved_url());
    assert_eq!(assign_sources(&buttons, Some(""))[0].url, unresolved_url());
    assert!(assign_sources(&Vec::new(), Some("x")).is_empty());
    assert!(!unresolved_url().is_empty());
}

#[test]
fn frame_outcome_needs_an_address() {
    assert_eq!(
        frame_outcome(" Mega ", Some("https://mega.example/e/1")),
        ButtonOutcome::Source(VideoSource {
            server: "Mega".to_string(),
            url: "https://mega.example/e/1".to_string(),
            quality: None,
        })
    );
    assert_eq!(frame_outcome("Mega", None), ButtonOutcome::Skipped(SkipReason::NoAddress));
    assert_eq!(frame_outcome("Mega", Some("")), ButtonOutcome::Skipped(SkipReason::NoAddress));
}

#[test]
fn a_skipped_button_does_not_lose_the_others() {
    let outcomes = vec![
        frame_outcome("A", Some("https://a.example")),
        ButtonOutcome::Skipped(SkipReason::ClickFailed),
        frame_outcome("B", Some("https://b.example")),
        ButtonOutcome::Skipped(SkipReason::NoFrame),
    ];
    let report = collect_outcomes(&outcomes);
    let servers: Vec<&str> = report.sources.iter().map(|s| s.server.as_str()).collect();
    assert_eq!(servers, vec!["A", "B"]);
    assert_eq!(report.sources[1].url, "https://b.example");
    assert_eq!(report.skipped, vec![SkipReason::ClickFailed, SkipReason::NoFrame]);
    let empty = collect_outcomes(&Vec::new());
    assert!(empty.sources.is_empty() && empty.skipped.is_empty());
}

#[test]
fn button_steps_follow_each_other() {
    assert_eq!(after_step(ButtonStep::ReadLabel, true), ButtonNext::Do(ButtonStep::ScrollIntoView));
    assert_eq!(after_step(ButtonStep::ReadLabel, false), ButtonNext::Skip(SkipReason::LabelUnreadable));
    assert_eq!(after_step(ButtonStep::ScrollIntoView, false), ButtonNext::Do(ButtonStep::Click));
    assert_eq!(after_step(ButtonStep::ScrollIntoView, true), ButtonNext::Do(ButtonStep::Click));
    assert_eq!(after_step(ButtonStep::Click, true), ButtonNext::Do(ButtonStep::Settle));
    assert_eq!(after_step(ButtonStep::Click, false), ButtonNext::Do(ButtonStep::ScriptClick));
    assert_eq!(after_step(ButtonStep::ScriptClick, true), ButtonNext::Do(ButtonStep::Settle));
    assert_eq!(after_step(ButtonStep::ScriptClick, false), ButtonNext::Skip(SkipReason::ClickFailed));
    assert_eq!(after_step(ButtonStep::Settle, true), ButtonNext::Do(ButtonStep::FindFrame));
    assert_eq!(after_step(ButtonStep::FindFrame, true), ButtonNext::ReadAddress);
    assert_eq!(after_step(ButtonStep::FindFrame, false), ButtonNext::Skip(SkipReason::NoFrame));
}

#[test]
fn a_session_that_goes_through() {
    let mut state = start();
    let mut seen = Vec::new();
    while state.phase != Phase::Finished {
        seen.push(state.phase);
        state = advance(state, true);
    }
    assert_eq!(
        seen,
        vec![
            Phase::CheckBinaries,
            Phase::StartDriver,
            Phase::AwaitDriver,
            Phase::Connect,
            Phase::Navigate,
            Phase::AwaitButtons,
            Phase::ListButtons,
            Phase::Buttons,
            Phase::CloseSession,
            Phase::StopDriver,
        ]
    );
    assert_eq!(state.failure, None);
}

#[test]
fn a_session_that_times_out_still_shuts_down() {
    let state = SessionState { phase: Phase::AwaitButtons, failure: None };
    let state = advance(state, false);
    assert_eq!(state, SessionState { phase: Phase::CloseSession, failure: Some(ScrapeError::RenderTimeout) });
    let state = advance(state, false);
    assert_eq!(state, SessionState { phase: Phase::StopDriver, failure: Some(ScrapeError::RenderTimeout) });
    let state = advance(state, true);
    assert_eq!(state, SessionState { phase: Phase::Finished, failure: Some(ScrapeError::RenderTimeout) });
    assert_eq!(advance(state, true), state);
}

#[test]
fn session_failures_by_phase() {
    assert_eq!(advance(start(), false), SessionState { phase: Phase::Finished, failure: Some(ScrapeError::MissingBinary) });
    assert_eq!(next_phase(Phase::StartDriver, false), Phase::Finished);
    assert_eq!(next_phase(Phase::Connect, false), Phase::StopDriver);
    assert_eq!(next_phase(Phase::Navigate, false), Phase::CloseSession);
    assert_eq!(next_phase(Phase::ListButtons, false), Phase::CloseSession);
    assert_eq!(phase_failure(Phase::Navigate), ScrapeError::Navigation);
    assert_eq!(phase_failure(Phase::Connect), ScrapeError::BrowserLaunch);
    assert_eq!(phase_failure(Phase::ListButtons), ScrapeError::Extraction);
    assert_eq!(phase_failure(Phase::AwaitButtons), ScrapeError::RenderTimeout);
    assert_eq!(phase_failure(Phase::CheckBinaries), ScrapeError::MissingBinary);
    assert_eq!(ScrapeError::RenderTimeout.message(), "render timeout");
    assert_eq!(ScrapeError::MissingBinary.message(), "required program not found");
    let state = advance(SessionState { phase: Phase::Buttons, failure: None }, false);
    assert_eq!(state, SessionState { phase: Phase::CloseSession, failure: None });
    let state = advance(SessionState { phase: Phase::CloseSession, failure: None }, false);
    assert_eq!(state, SessionState { phase: Phase::StopDriver, failure: Some(ScrapeError::Transport) });
}

#[test]
fn binaries_are_chosen_in_order_of_preference() {
    let browsers = vec![None, Some("/usr/bin/chromium".to_string()), Some("/usr/bin/google-chrome".to_string())];
    let b = choose_binaries(Some("/usr/bin/chromedriver"), &browsers).unwrap();
    assert_eq!(b.driver, "/usr/bin/chromedriver");
    assert_eq!(b.browser, "/usr/bin/chromium");
    assert_eq!(choose_binaries(None, &browsers), Err(ScrapeError::MissingBinary));
    assert_eq!(choose_binaries(Some("/usr/bin/chromedriver"), &vec![None, None]), Err(ScrapeError::MissingBinary));
    assert_eq!(choose_binaries(Some("/usr/bin/chromedriver"), &Vec::new()), Err(ScrapeError::MissingBinary));
}

#[test]
fn driver_port_texts() {
    assert_eq!(driver_url(DRIVER_PORT), "http://localhost:9515");
    assert_eq!(SETTLE_SECONDS, 2);
    assert_eq!(browser_arguments(), vec!["--headless", "--no-sandbox", "--disable-gpu"]);
    assert_eq!(port_argument(9515), "--port=9515");
    assert_eq!(port_argument(0), "--port=0");
}

#[test]
fn error_kinds_and_statuses() {
    assert_eq!(ScrapeError::LookupFailed.kind(), ErrorKind::Resolution);
    assert_eq!(ScrapeError::NoAddress.kind(), ErrorKind::Resolution);
    assert_eq!(ScrapeError::Transport.kind(), ErrorKind::Transport);
    assert_eq!(ScrapeError::BrowserLaunch.kind(), ErrorKind::Render);
    assert_eq!(ScrapeError::Navigation.kind(), ErrorKind::Render);
    assert_eq!(ScrapeError::RenderTimeout.kind(), ErrorKind::Render);
    assert_eq!(ScrapeError::ContentRetrieval.kind(), ErrorKind::Render);
    assert_eq!(ScrapeError::Extraction.kind(), ErrorKind::Extraction);
    assert_eq!(ScrapeError::MissingBinary.kind(), ErrorKind::Dependency);
    assert_eq!(ScrapeError::from_resolve(ResolveError::NoAddress), ScrapeError::NoAddress);
    assert_eq!(ScrapeError::from_resolve(ResolveError::LookupFailed), ScrapeError::LookupFailed);
    assert_eq!(failure_status(Operation::Search), 500);
    assert_eq!(failure_status(Operation::Episodes), 404);
    assert_eq!(failure_status(Operation::Sources), 404);
}

#[test]
fn active_marker_is_a_name_of_the_class_list() {
    assert!(server_button("Mega", Some("btn active"), "active").active);
    assert!(server_button("Mega", Some("active"), "active").active);
    assert!(server_button("Mega", Some("  btn\tactive\n"), "active").active);
    assert!(!server_button("Mega", Some("btn inactive"), "active").active);
    assert!(!server_button("Mega", Some("btn active-now"), "active").active);
    assert!(!server_button("Mega", Some("btn"), "active").active);
    assert!(!server_button("Mega", Some(""), "active").active);
    assert!(!server_button("Mega", Some("a b"), "").active);
    assert!(!server_button("Mega", Some("a b"), "a b").active);
    assert!(!server_button("Mega", None, "active").active);
    assert_eq!(server_button(" Mega ", None, "active").label, " Mega ");
}
