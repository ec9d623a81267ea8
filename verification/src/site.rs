//! What is particular to one site: its address, the selectors of its page
//! layout, and how its pages are obtained and ordered.

use vstd::prelude::*;
use crate::text::{
    append_chars, chars_of, first_index, lemma_before_first, replace_char, slice_of,
    spec_first_index, spec_replace_char, spec_strip_leading, string_of, strip_leading,
};

verus! {

/// The settings of one site.
#[derive(Debug, Clone, PartialEq, Eq)]
pub struct SiteProfile {
    /// Scheme and host of the site, without a trailing slash.
    pub base_url: String,
    /// Matches one result or episode card.
    pub card_selector: String,
    /// Within a result card, matches the link of the entry.
    pub search_link_selector: String,
    /// Within a result card, matches the title.
    pub search_title_selector: String,
    /// Within a result card, matches the category label.
    pub search_kind_selector: String,
    /// Within an episode card, matches the link of the episode.
    pub episode_link_selector: String,
    /// Within an episode card, matches the numeric label.
    pub episode_number_selector: String,
    /// Within an episode card, matches the accessible label.
    pub episode_label_selector: String,
    /// The element whose appearance shows that the episode list is rendered.
    pub episodes_wait_selector: String,
    /// How many seconds to wait for that element.
    pub wait_seconds: u64,
    /// Whether the episode page has to be rendered by a browser; where
    /// not, its markup is complete as fetched.
    pub episodes_rendered: bool,
    /// Whether the page lists the newest episode first.
    pub newest_first: bool,
    /// Matches the buttons that select a video server.
    pub server_button_selector: String,
    /// Matches the frame that plays a video.
    pub frame_selector: String,
    /// The class name that marks the button of the server that is shown.
    pub active_marker: String,
    /// Whether the buttons have to be clicked in a browser to reveal their
    /// sources; where not, the sources are read off the markup as fetched.
    pub sources_rendered: bool,
}

/// The settings of animeav1.com.
pub fn animeav1() -> (p: SiteProfile)
    ensures
        p.base_url@ == "https://animeav1.com"@,
        p.card_selector@ == "article.group\\/item"@,
        p.search_link_selector@ == "a[href]"@,
        p.search_title_selector@ == "h3.line-clamp-2"@,
        p.search_kind_selector@ == "div.text-2xs"@,
        p.episode_link_selector@ == "a[href^=\"/media/\"]"@,
        p.episode_number_selector@ == "span.text-lead.font-bold"@,
        p.episode_label_selector@ == "span.sr-only"@,
        p.episodes_wait_selector@ == "article.group\\/item a[href^=\"/media/\"]"@,
        p.wait_seconds == 20,
        p.episodes_rendered,
        !p.newest_first,
        p.server_button_selector@ == "div.flex.flex-1.flex-wrap button"@,
        p.frame_selector@ == "iframe"@,
        p.active_marker@ == "active"@,
        p.sources_rendered,
{
    SiteProfile {
        base_url: "https://animeav1.com".to_owned(),
        card_selector: "article.group\\/item".to_owned(),
        search_link_selector: "a[href]".to_owned(),
        search_title_selector: "h3.line-clamp-2".to_owned(),
        search_kind_selector: "div.text-2xs".to_owned(),
        episode_link_selector: "a[href^=\"/media/\"]".to_owned(),
        episode_number_selector: "span.text-lead.font-bold".to_owned(),
        episode_label_selector: "span.sr-only".to_owned(),
        episodes_wait_selector: "article.group\\/item a[href^=\"/media/\"]".to_owned(),
        wait_seconds: 20,
        episodes_rendered: true,
        newest_first: false,
        server_button_selector: "div.flex.flex-1.flex-wrap button".to_owned(),
        frame_selector: "iframe".to_owned(),
        active_marker: "active".to_owned(),
        sources_rendered: true,
    }
}

/// The host of a base address: what is left of it without its leading
/// scheme, up to the first slash.
pub open spec fn spec_domain(base_url: Seq<char>) -> Seq<char> {
    let rest = spec_strip_leading(spec_strip_leading(base_url, "https://"@), "http://"@);
    rest.subrange(0, spec_first_index(rest, '/'))
}

/// The host of a base address holds no slash.
pub proof fn lemma_domain_has_no_slash(base_url: Seq<char>)
    ensures
        forall|k: int|
            0 <= k < spec_domain(base_url).len() ==> (#[trigger] spec_domain(base_url)[k]) != '/',
{
    let rest = spec_strip_leading(spec_strip_leading(base_url, "https://"@), "http://"@);
    lemma_before_first(rest, '/');
}

/// The path of an episode identifier holds no star, and it is as long as
/// the identifier.
pub proof fn lemma_episode_path(episode_id: Seq<char>)
    ensures
        spec_episode_path(episode_id).len() == episode_id.len(),
        forall|k: int|
            0 <= k < episode_id.len() ==> (#[trigger] spec_episode_path(episode_id)[k]) != '*',
        forall|k: int|
            0 <= k < episode_id.len() && episode_id[k] != '*' ==> (#[trigger] spec_episode_path(
                episode_id,
            )[k]) == episode_id[k],
{
}

/// The host of a base address.
pub fn domain_of(base_url: &str) -> (r: String)
    ensures
        r@ == spec_domain(base_url@),
{
    let all: Vec<char> = chars_of(base_url);
    let a: Vec<char> = strip_leading(&all, &chars_of("https://"));
    let b: Vec<char> = strip_leading(&a, &chars_of("http://"));
    let cut: usize = first_index(&b, '/');
    string_of(&slice_of(&b, 0, cut))
}

/// The address of the page that lists the results of a search.
pub open spec fn spec_search_url(base_url: Seq<char>, query: Seq<char>) -> Seq<char> {
    base_url + "/catalogo?search="@ + query
}

/// The address of the page of a catalog entry or of an episode.
pub open spec fn spec_media_url(base_url: Seq<char>, id: Seq<char>) -> Seq<char> {
    base_url + "/media/"@ + id
}

/// The path that an episode identifier stands for: in an identifier a
/// star takes the place of each slash.
pub open spec fn spec_episode_path(episode_id: Seq<char>) -> Seq<char> {
    spec_replace_char(episode_id, '*', '/')
}

/// Joins three pieces of an address.
fn join3(a: &str, b: &str, c: &Vec<char>) -> (r: String)
    ensures
        r@ == a@ + b@ + c@,
{
    let mut out: Vec<char> = chars_of(a);
    append_chars(&mut out, &chars_of(b));
    append_chars(&mut out, c);
    string_of(&out)
}

impl SiteProfile {
    /// The host of the site.
    pub fn domain(&self) -> (r: String)
        ensures
            r@ == spec_domain(self.base_url@),
    {
        domain_of(self.base_url.as_str())
    }

    /// The address of the page that lists the results of a search for `query`.
    pub fn search_url(&self, query: &str) -> (r: String)
        ensures
            r@ == spec_search_url(self.base_url@, query@),
    {
        join3(self.base_url.as_str(), "/catalogo?search=", &chars_of(query))
    }

    /// The address of the page that lists the episodes of the entry `anime_id`.
    pub fn episodes_url(&self, anime_id: &str) -> (r: String)
        ensures
            r@ == spec_media_url(self.base_url@, anime_id@),
    {
        join3(self.base_url.as_str(), "/media/", &chars_of(anime_id))
    }

    /// The address of the page that plays the episode `episode_id`, in
    /// which a star stands for each slash of the path.
    pub fn sources_url(&self, episode_id: &str) -> (r: String)
        ensures
            r@ == spec_media_url(self.base_url@, spec_episode_path(episode_id@)),
    {
        let path: Vec<char> = replace_char(&chars_of(episode_id), '*', '/');
        join3(self.base_url.as_str(), "/media/", &path)
    }
}

} // verus!
