//! From markup to records: the cards of a page are found by the site's
//! selectors, and each card becomes a record by the normalizing rules.

use vstd::prelude::*;
use crate::dom::{
    count_matches, matched_attr, matched_text, nested_attr, nested_text, spec_match_count,
    spec_matched_attr, spec_matched_text, spec_nested_attr, spec_nested_text,
};
use crate::normalize::{anime_record, episode_record, spec_anime_view, spec_episode_view};
use crate::ordering::{present_episodes, spec_ascending, spec_presented};
use crate::records::{
    spec_anime_views, spec_episode_views, spec_source_views, Anime, AnimeView, Episode,
    EpisodeView, VideoSource, VideoSourceView,
};
use crate::site::{spec_domain, SiteProfile};
use crate::sources::{assign_sources, server_button, spec_button_source, ServerButton};
use crate::text::spec_has_name;
use crate::unique::{spec_distinct_ids, spec_unique_by_id, unique_by_id};

verus! {

/// The catalog entry that result card number `i` of a page gives; nothing
/// where the card has no link.
pub open spec fn spec_search_card(p: SiteProfile, html: Seq<char>, i: nat) -> Option<AnimeView> {
    match spec_nested_attr(html, p.card_selector@, i, p.search_link_selector@, "href"@) {
        Some(href) => Some(
            spec_anime_view(
                spec_domain(p.base_url@),
                href,
                spec_nested_text(html, p.card_selector@, i, p.search_title_selector@),
                spec_nested_text(html, p.card_selector@, i, p.search_kind_selector@),
            ),
        ),
        None => None,
    }
}

/// The catalog entries that the first `n` result cards of a page give, in
/// the order of the cards.
pub open spec fn spec_search_cards(p: SiteProfile, html: Seq<char>, n: nat) -> Seq<AnimeView>
    decreases n,
{
    if n == 0 {
        Seq::empty()
    } else {
        let before = spec_search_cards(p, html, (n - 1) as nat);
        match spec_search_card(p, html, (n - 1) as nat) {
            Some(a) => before.push(a),
            None => before,
        }
    }
}

/// The episode that card number `i` of a page gives; nothing where the
/// card has no link or an empty one.
pub open spec fn spec_episode_card(p: SiteProfile, html: Seq<char>, i: nat) -> Option<
    EpisodeView,
> {
    match spec_nested_attr(html, p.card_selector@, i, p.episode_link_selector@, "href"@) {
        Some(href) => if href.len() > 0 {
            Some(
                spec_episode_view(
                    spec_domain(p.base_url@),
                    href,
                    spec_nested_text(html, p.card_selector@, i, p.episode_number_selector@),
                    spec_nested_text(html, p.card_selector@, i, p.episode_label_selector@),
                ),
            )
        } else {
            None
        },
        None => None,
    }
}

/// The episodes that the first `n` cards of a page give, in the order of
/// the cards.
pub open spec fn spec_episode_cards(p: SiteProfile, html: Seq<char>, n: nat) -> Seq<EpisodeView>
    decreases n,
{
    if n == 0 {
        Seq::empty()
    } else {
        let before = spec_episode_cards(p, html, (n - 1) as nat);
        match spec_episode_card(p, html, (n - 1) as nat) {
            Some(e) => before.push(e),
            None => before,
        }
    }
}

/// The catalog entries that the markup of a result page gives.
pub open spec fn spec_search_results(p: SiteProfile, html: Seq<char>) -> Seq<AnimeView> {
    spec_search_cards(p, html, spec_match_count(html, p.card_selector@))
}

/// A borrowed view of an optional owned string.
fn borrow_opt(o: &Option<String>) -> (r: Option<&str>)
    ensures
        r is Some <==> o is Some,
        r matches Some(s) ==> o matches Some(t) && s@ == t@,
{
    match o {
        Some(s) => Some(s.as_str()),
        None => None,
    }
}

/// Extracts the catalog entries from the markup of a result page: one
/// for each result card that has a link, in the order of the cards.
pub fn search_results(profile: &SiteProfile, html: &str) -> (out: Vec<Anime>)
    ensures
        spec_anime_views(out@) == spec_search_results(*profile, html@),
{
    let domain: String = profile.domain();
    let n: usize = count_matches(html, profile.card_selector.as_str());
    let mut out: Vec<Anime> = Vec::new();
    let mut i: usize = 0;
    proof {
        assert(spec_anime_views(out@) =~= Seq::<AnimeView>::empty());
    }
    while i < n
        invariant
            i <= n,
            domain@ == spec_domain(profile.base_url@),
            spec_anime_views(out@) == spec_search_cards(*profile, html@, i as nat),
        decreases n - i,
    {
        let ghost before = spec_anime_views(out@);
        let link: Option<String> = nested_attr(
            html,
            profile.card_selector.as_str(),
            i,
            profile.search_link_selector.as_str(),
            "href",
        );
        match link {
            Some(href) => {
                let title: Option<String> = nested_text(
                    html,
                    profile.card_selector.as_str(),
                    i,
                    profile.search_title_selector.as_str(),
                );
                let kind: Option<String> = nested_text(
                    html,
                    profile.card_selector.as_str(),
                    i,
                    profile.search_kind_selector.as_str(),
                );
                let a: Anime = anime_record(domain.as_str(), href.as_str(), title, kind);
                out.push(a);
                proof {
                    assert(spec_anime_views(out@) =~= before.push(a@));
                }
            },
            None => {},
        }
        i += 1;
    }
    out
}

/// Extracts the episodes from the markup of an episode page, in the order
/// of the cards: one for each card that has a link that is not empty.
pub fn episode_cards(profile: &SiteProfile, html: &str) -> (out: Vec<Episode>)
    ensures
        spec_episode_views(out@) == spec_episode_cards(
            *profile,
            html@,
            spec_match_count(html@, profile.card_selector@),
        ),
{
    let domain: String = profile.domain();
    let n: usize = count_matches(html, profile.card_selector.as_str());
    let mut out: Vec<Episode> = Vec::new();
    let mut i: usize = 0;
    proof {
        assert(spec_episode_views(out@) =~= Seq::<EpisodeView>::empty());
    }
    while i < n
        invariant
            i <= n,
            domain@ == spec_domain(profile.base_url@),
            spec_episode_views(out@) == spec_episode_cards(*profile, html@, i as nat),
        decreases n - i,
    {
        let ghost before = spec_episode_views(out@);
        let link: Option<String> = nested_attr(
            html,
            profile.card_selector.as_str(),
            i,
            profile.episode_link_selector.as_str(),
            "href",
        );
        match link {
            Some(href) => {
                let number_label: Option<String> = nested_text(
                    html,
                    profile.card_selector.as_str(),
                    i,
                    profile.episode_number_selector.as_str(),
                );
                let title_label: Option<String> = nested_text(
                    html,
                    profile.card_selector.as_str(),
                    i,
                    profile.episode_label_selector.as_str(),
                );
                let record: Option<Episode> = episode_record(
                    domain.as_str(),
                    href.as_str(),
                    borrow_opt(&number_label),
                    borrow_opt(&title_label),
                );
                match record {
                    Some(e) => {
                        out.push(e);
                        proof {
                            assert(spec_episode_views(out@) =~= before.push(e@));
                        }
                    },
                    None => {},
                }
            },
            None => {},
        }
        i += 1;
    }
    out
}

/// The episodes that the markup of an episode page gives: those of its
/// cards, unique by slug, in the order of presentation.
pub open spec fn spec_episodes_from_html(p: SiteProfile, html: Seq<char>) -> Seq<EpisodeView> {
    spec_presented(
        spec_unique_by_id(
            spec_episode_cards(p, html, spec_match_count(html, p.card_selector@)),
        ),
        p.newest_first,
    )
}

/// Extracts the episodes from the markup of an episode page: of several
/// cards with one slug the first stays, and what is left is put in the
/// order of presentation, ascending by number.
pub fn episodes_from_html(profile: &SiteProfile, html: &str) -> (out: Vec<Episode>)
    ensures
        spec_episode_views(out@) == spec_episodes_from_html(*profile, html@),
        spec_ascending(spec_episode_views(out@)),
        spec_distinct_ids(spec_episode_views(out@)),
{
    let found: Vec<Episode> = episode_cards(profile, html);
    let kept: Vec<Episode> = unique_by_id(&found);
    present_episodes(kept, profile.newest_first)
}

/// The text of server button number `i` of a page; empty where it has none.
pub open spec fn spec_button_label(p: SiteProfile, html: Seq<char>, i: nat) -> Seq<char> {
    match spec_matched_text(html, p.server_button_selector@, i) {
        Some(text) => text,
        None => Seq::empty(),
    }
}

/// Tells whether server button number `i` of a page is the active one:
/// whether its class list holds the site's marker.
pub open spec fn spec_button_active(p: SiteProfile, html: Seq<char>, i: nat) -> bool {
    match spec_matched_attr(html, p.server_button_selector@, i, "class"@) {
        Some(list) => spec_has_name(list, p.active_marker@),
        None => false,
    }
}

/// The source attribute of the first frame of a page.
pub open spec fn spec_page_frame(p: SiteProfile, html: Seq<char>) -> Option<Seq<char>> {
    spec_matched_attr(html, p.frame_selector@, 0, "src"@)
}

/// The video sources that the markup of an episode page shows without
/// any click: one for each server button, of which only the active one
/// has the address of the page's frame.
pub open spec fn spec_static_sources(p: SiteProfile, html: Seq<char>) -> Seq<VideoSourceView> {
    Seq::new(
        spec_match_count(html, p.server_button_selector@),
        |i: int|
            spec_button_source(
                spec_button_label(p, html, i as nat),
                spec_button_active(p, html, i as nat),
                spec_page_frame(p, html),
            ),
    )
}

/// Extracts the video sources from the markup of an episode page as it
/// was fetched: the active server button gets the address of the page's
/// frame, every other button the marker for an unresolved address.
pub fn sources_from_html(profile: &SiteProfile, html: &str) -> (out: Vec<VideoSource>)
    ensures
        spec_source_views(out@) == spec_static_sources(*profile, html@),
{
    let n: usize = count_matches(html, profile.server_button_selector.as_str());
    let mut buttons: Vec<ServerButton> = Vec::new();
    let mut i: usize = 0;
    while i < n
        invariant
            i <= n,
            buttons@.len() == i,
            forall|k: int|
                0 <= k < i ==> (#[trigger] buttons@[k]).label@ == spec_button_label(
                    *profile,
                    html@,
                    k as nat,
                ) && buttons@[k].active == spec_button_active(*profile, html@, k as nat),
        decreases n - i,
    {
        let text: Option<String> = matched_text(html, profile.server_button_selector.as_str(), i);
        let classes: Option<String> = matched_attr(
            html,
            profile.server_button_selector.as_str(),
            i,
            "class",
        );
        let label: String = match text {
            Some(t) => t,
            None => String::new(),
        };
        let button: ServerButton = server_button(
            label.as_str(),
            borrow_opt(&classes),
            profile.active_marker.as_str(),
        );
        buttons.push(button);
        i += 1;
    }
    let frame: Option<String> = matched_attr(html, profile.frame_selector.as_str(), 0, "src");
    let out: Vec<VideoSource> = assign_sources(&buttons, borrow_opt(&frame));
    proof {
        assert(spec_source_views(out@) =~= spec_static_sources(*profile, html@));
    }
    out
}

} // verus!
