use anime_scraper::error::ScrapeError;
use anime_scraper::extract::{episode_cards, episodes_from_html, search_results, sources_from_html};
use anime_scraper::sources::unresolved_url;
use anime_scraper::transport::{sources_from_fetch, FetchOutcome};
use anime_scraper::render::{episodes_from_render, host_rule, plan_episodes_render, RenderOutcome};
use anime_scraper::site::{animeav1, domain_of};

const SEARCH_PAGE: &str = r#"<html><body><main>
<article class="group/item"><a href="/media/naruto"><h3 class="line-clamp-2">Naruto</h3></a><div class="text-2xs">TV Anime</div></article>
<article class="other"><a href="/media/ignored">x</a></article>
<article class="group/item"><a href="/media/naruto-shippuden/"><h3 class="other">Hidden</h3></a></article>
</main></body></html>"#;

const EPISODE_PAGE: &str = r#"<html><body>
<article class="group/item"><a href="/media/naruto/2"><span class="sr-only">Ver Naruto 2</span></a><span class="text-lead font-bold">2</span></article>
<article class="group/item"><a href="/media/naruto/1"><span class="sr-only">Watch Naruto 1</span></a></article>
<article class="group/item"><a href="/media/naruto/special"><span class="sr-only"> Watch Naruto Special </span></a><span class="text-lead font-bold"> 7 </span></article>
<article class="group/item"><span>no link here</span></article>
<article class="group/item"><a href="/other/9">elsewhere</a></article>
</body></html>"#;

#[test]
fn search_for_naruto_yields_two_entries() {
    let found = search_results(&animeav1(), SEARCH_PAGE);
    assert_eq!(found.len(), 2);
    assert_eq!(found[0].id, "naruto");
    assert_eq!(found[0].title, "Naruto");
    assert_eq!(found[0].typ, "TV Anime");
    assert_eq!(found[0].url, "https://animeav1.com/media/naruto");
    assert_eq!(found[1].id, "naruto-shippuden");
    assert_eq!(found[1].title, "Untitled");
    assert_eq!(found[1].typ, "Unknown");
    assert!(found.iter().all(|a| !a.id.is_empty()));
}

#[test]
fn search_of_a_page_without_cards_is_empty() {
    assert!(search_results(&animeav1(), "<html><body><p>nothing</p></body></html>").is_empty());
    assert!(search_results(&animeav1(), "").is_empty());
}

#[test]
fn a_selector_that_is_none_matches_nothing() {
    let mut profile = animeav1();
    profile.card_selector = "article[".to_string();
    assert!(search_results(&profile, SEARCH_PAGE).is_empty());
    assert!(episode_cards(&profile, EPISODE_PAGE).is_empty());
}

#[test]
fn episode_cards_follow_the_page() {
    let cards = episode_cards(&animeav1(), EPISODE_PAGE);
    let ids: Vec<&str> = cards.iter().map(|e| e.id.as_str()).collect();
    assert_eq!(ids, vec!["2", "1", "special"]);
    assert_eq!(cards[0].title, "Ver Naruto");
    assert_eq!(cards[1].title, "Naruto");
    assert_eq!(cards[2].number, 7);
    assert_eq!(cards[2].title, "Naruto Special");
    assert_eq!(cards[2].url, "https://animeav1.com/media/naruto/special");
}

#[test]
fn episodes_are_presented_in_ascending_order() {
    let list = episodes_from_html(&animeav1(), EPISODE_PAGE);
    let numbers: Vec<u32> = list.iter().map(|e| e.number).collect();
    assert_eq!(numbers, vec![1, 2, 7]);
}

#[test]
fn render_timeout_gives_no_episodes() {
    let r = episodes_from_render(&animeav1(), &RenderOutcome::TimedOut);
    assert_eq!(r, Err(ScrapeError::RenderTimeout));
}

#[test]
fn each_failed_rendering_has_its_error() {
    let p = animeav1();
    assert_eq!(episodes_from_render(&p, &RenderOutcome::LaunchFailed), Err(ScrapeError::BrowserLaunch));
    assert_eq!(episodes_from_render(&p, &RenderOutcome::NavigationFailed), Err(ScrapeError::Navigation));
    assert_eq!(episodes_from_render(&p, &RenderOutcome::ContentFailed), Err(ScrapeError::ContentRetrieval));
}

#[test]
fn rendered_markup_gives_the_episodes() {
    let r = episodes_from_render(&animeav1(), &RenderOutcome::Rendered(EPISODE_PAGE.to_string()));
    let list = r.unwrap();
    assert_eq!(list.len(), 3);
    assert_eq!(list[0].id, "1");
}

#[test]
fn host_rule_maps_domain_to_address() {
    assert_eq!(
        host_rule("animeav1.com", "104.21.5.7"),
        "--host-resolver-rules=MAP animeav1.com 104.21.5.7"
    );
}

#[test]
fn render_plan_for_an_entry() {
    let plan = plan_episodes_render(&animeav1(), "naruto", "104.21.5.7");
    assert!(plan.headless);
    assert!(!plan.sandbox);
    assert!(plan.ignore_certificate_errors);
    assert_eq!(
        plan.args,
        vec![
            "--no-sandbox".to_string(),
            "--host-resolver-rules=MAP animeav1.com 104.21.5.7".to_string()
        ]
    );
    assert_eq!(plan.url, "https://animeav1.com/media/naruto");
    assert_eq!(plan.wait_selector, "article.group\\/item a[href^=\"/media/\"]");
    assert_eq!(plan.wait_seconds, 20);
}

#[test]
fn site_addresses() {
    let p = animeav1();
    assert_eq!(p.domain(), "animeav1.com");
    assert_eq!(p.search_url("naruto"), "https://animeav1.com/catalogo?search=naruto");
    assert_eq!(p.episodes_url("naruto"), "https://animeav1.com/media/naruto");
    assert_eq!(p.sources_url("naruto*12"), "https://animeav1.com/media/naruto/12");
    assert_eq!(p.sources_url("plain"), "https://animeav1.com/media/plain");
}

#[test]
fn domain_of_base_addresses() {
    assert_eq!(domain_of("https://animeav1.com"), "animeav1.com");
    assert_eq!(domain_of("http://animeav1.com/path/x"), "animeav1.com");
    assert_eq!(domain_of("https://https://a.b/c"), "a.b");
    assert_eq!(domain_of("animeav1.com"), "animeav1.com");
    assert_eq!(domain_of(""), "");
}

const PLAYER_PAGE: &str = r#"<html><body>
<div class="flex flex-1 flex-wrap"><button class="btn">Mega</button><button class="btn active"> Stream </button><button>Fembed</button></div>
<div class="other"><button class="active">Elsewhere</button></div>
<iframe src="https://player.example/e/1"></iframe><iframe src="https://ads.example/x"></iframe>
</body></html>"#;

#[test]
fn static_page_resolves_only_the_active_button() {
    let out = sources_from_html(&animeav1(), PLAYER_PAGE);
    assert_eq!(out.len(), 3);
    assert_eq!(out[0].server, "Mega");
    assert_eq!(out[1].server, "Stream");
    assert_eq!(out[2].server, "Fembed");
    assert_eq!(out[0].url, unresolved_url());
    assert_eq!(out[1].url, "https://player.example/e/1");
    assert_eq!(out[2].url, unresolved_url());
    assert!(out.iter().all(|s| s.quality.is_none()));
}

#[test]
fn static_page_without_frame_or_buttons() {
    let p = animeav1();
    let no_frame = r#"<div class="flex flex-1 flex-wrap"><button class="active">Mega</button></div>"#;
    let out = sources_from_html(&p, no_frame);
    assert_eq!(out.len(), 1);
    assert_eq!(out[0].url, unresolved_url());
    assert!(sources_from_html(&p, "<p>nothing</p>").is_empty());
    let reply = FetchOutcome::Replied { status: 200, body: PLAYER_PAGE.to_string() };
    assert_eq!(sources_from_fetch(&p, &reply).unwrap().len(), 3);
    let refused = FetchOutcome::Replied { status: 403, body: PLAYER_PAGE.to_string() };
    assert_eq!(sources_from_fetch(&p, &refused), Err(ScrapeError::Transport));
}
