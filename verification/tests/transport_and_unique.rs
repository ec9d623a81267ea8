use anime_scraper::error::ScrapeError;
use anime_scraper::records::{Episode, SearchParams};
use anime_scraper::site::animeav1;
use anime_scraper::transport::{
    episodes_from_fetch, fetched_markup, is_success, search_from_fetch, user_agent, FetchOutcome,
    HTTPS_PORT,
};
use anime_scraper::unique::{copy_episode, has_id, unique_by_id};

fn ep(id: &str, number: u32) -> Episode {
    Episode { id: id.to_string(), number, title: format!("T{}", number), url: format!("u/{}", id) }
}

fn replied(status: u16, body: &str) -> FetchOutcome {
    FetchOutcome::Replied { status, body: body.to_string() }
}

const PAGE: &str = r#"<article class="group/item"><a href="/media/bleach/3">x</a></article>
<article class="group/item"><a href="/media/bleach/1"><span class="sr-only">Watch Bleach 1</span></a></article>
<article class="group/item"><a href="/media/bleach/3/">again</a></article>"#;

#[test]
fn success_statuses() {
    assert!(is_success(200));
    assert!(is_success(299));
    assert!(!is_success(199));
    assert!(!is_success(300));
    assert!(!is_success(404));
    assert_eq!(HTTPS_PORT, 443);
    assert!(user_agent().starts_with("Mozilla/5.0"));
}

#[test]
fn only_a_successful_reply_gives_markup() {
    assert_eq!(fetched_markup(&replied(200, "<p>x</p>")), Ok("<p>x</p>"));
    assert_eq!(fetched_markup(&replied(503, "<p>x</p>")), Err(ScrapeError::Transport));
    assert_eq!(fetched_markup(&FetchOutcome::ConnectionFailed), Err(ScrapeError::Transport));
}

#[test]
fn search_from_a_reply() {
    let p = animeav1();
    let found = search_from_fetch(&p, &replied(200, PAGE)).unwrap();
    assert_eq!(found.len(), 3);
    assert_eq!(found[0].id, "3");
    assert_eq!(search_from_fetch(&p, &replied(500, PAGE)), Err(ScrapeError::Transport));
    assert_eq!(search_from_fetch(&p, &FetchOutcome::ConnectionFailed), Err(ScrapeError::Transport));
}

#[test]
fn episodes_from_a_reply_are_unique_and_ascending() {
    let p = animeav1();
    let list = episodes_from_fetch(&p, &replied(200, PAGE)).unwrap();
    let ids: Vec<&str> = list.iter().map(|e| e.id.as_str()).collect();
    assert_eq!(ids, vec!["1", "3"]);
    assert_eq!(list[0].title, "Bleach");
    assert_eq!(list[1].title, "Episode 3");
    assert_eq!(list[1].url, "https://animeav1.com/media/bleach/3");
    assert_eq!(episodes_from_fetch(&p, &replied(404, PAGE)), Err(ScrapeError::Transport));
}

#[test]
fn first_of_equal_slugs_stays() {
    let list = vec![ep("a", 1), ep("b", 2), ep("a", 3), ep("c", 4), ep("b", 5)];
    let out = unique_by_id(&list);
    assert_eq!(out, vec![ep("a", 1), ep("b", 2), ep("c", 4)]);
    assert!(has_id(&out, &"c".to_string()));
    assert!(!has_id(&out, &"d".to_string()));
    assert_eq!(unique_by_id(&Vec::new()), Vec::<Episode>::new());
    assert_eq!(copy_episode(&ep("a", 1)), ep("a", 1));
}

#[test]
fn search_params_hold_the_query() {
    let p = SearchParams { q: "naruto".to_string() };
    assert_eq!(p.q, "naruto");
}
