//! The three kinds of record that extraction produces.

use vstd::prelude::*;

verus! {

/// A catalog entry found by a search.
#[derive(Debug, Clone, PartialEq, Eq)]
pub struct Anime {
    /// Slug taken from the last path segment of the entry's link.
    pub id: String,
    /// Display title; "Untitled" where the page gives none.
    pub title: String,
    /// Absolute address of the entry's page.
    pub url: String,
    /// Category label; "Unknown" where the page gives none.
    pub typ: String,
}

/// One episode of a catalog entry.
#[derive(Debug, Clone, PartialEq, Eq)]
pub struct Episode {
    /// Slug taken from the last path segment of the episode's link.
    pub id: String,
    /// Episode number; 0 where none could be determined.
    pub number: u32,
    /// Display title; "Episode N" where the page gives none.
    pub title: String,
    /// Absolute address of the episode's page.
    pub url: String,
}

/// One place from which an episode can be played.
#[derive(Debug, Clone, PartialEq, Eq)]
pub struct VideoSource {
    /// Label of the host or provider.
    pub server: String,
    /// Playable address, or the marker for an address that was not resolved.
    pub url: String,
    /// Resolution tier; not filled in so far.
    pub quality: Option<String>,
}

/// The parameters of a search request.
#[derive(Debug, Clone, PartialEq, Eq)]
pub struct SearchParams {
    /// The words searched for.
    pub q: String,
}

/// What a catalog entry holds, as sequences of characters.
pub struct AnimeView {
    pub id: Seq<char>,
    pub title: Seq<char>,
    pub url: Seq<char>,
    pub typ: Seq<char>,
}

/// What an episode holds, as sequences of characters and its number.
pub struct EpisodeView {
    pub id: Seq<char>,
    pub number: u32,
    pub title: Seq<char>,
    pub url: Seq<char>,
}

/// What a video source holds, as sequences of characters.
pub struct VideoSourceView {
    pub server: Seq<char>,
    pub url: Seq<char>,
    pub quality: Option<Seq<char>>,
}

impl View for Anime {
    type V = AnimeView;

    open spec fn view(&self) -> AnimeView {
        AnimeView { id: self.id@, title: self.title@, url: self.url@, typ: self.typ@ }
    }
}

impl View for Episode {
    type V = EpisodeView;

    open spec fn view(&self) -> EpisodeView {
        EpisodeView { id: self.id@, number: self.number, title: self.title@, url: self.url@ }
    }
}

impl View for VideoSource {
    type V = VideoSourceView;

    open spec fn view(&self) -> VideoSourceView {
        VideoSourceView {
            server: self.server@,
            url: self.url@,
            quality: spec_opt_text(self.quality),
        }
    }
}

/// The views of the entries of `s`, in order.
pub open spec fn spec_anime_views(s: Seq<Anime>) -> Seq<AnimeView> {
    s.map_values(|a: Anime| a@)
}

/// The views of the episodes of `s`, in order.
pub open spec fn spec_episode_views(s: Seq<Episode>) -> Seq<EpisodeView> {
    s.map_values(|e: Episode| e@)
}

/// The views of the sources of `s`, in order.
pub open spec fn spec_source_views(s: Seq<VideoSource>) -> Seq<VideoSourceView> {
    s.map_values(|v: VideoSource| v@)
}

/// An optional string as an optional sequence of characters.
pub open spec fn spec_opt_chars(o: Option<&str>) -> Option<Seq<char>> {
    match o {
        Some(s) => Some(s@),
        None => None,
    }
}

/// An optional owned string as an optional sequence of characters.
pub open spec fn spec_opt_text(o: Option<String>) -> Option<Seq<char>> {
    match o {
        Some(s) => Some(s@),
        None => None,
    }
}

} // verus!
