//! The rules that turn raw page fragments (a link target, label texts)
//! into records, with a fallback for every field that may be missing.

use vstd::prelude::*;
use crate::number::{decimal, parse_u32, spec_decimal, spec_parse_u32};
use crate::records::{spec_opt_chars, spec_opt_text, Anime, AnimeView, Episode, EpisodeView};
use crate::text::{
    after_last, append_chars, chars_of, has_prefix, last_segment, slice_of, spec_after_last,
    spec_last_segment, spec_trim, string_of, trim,
};

verus! {

/// Tells whether `href` names a scheme and so is absolute already.
pub open spec fn spec_is_absolute(href: Seq<char>) -> bool {
    "http://"@.is_prefix_of(href) || "https://"@.is_prefix_of(href)
}

/// The absolute address of `href` on the site `domain`.
pub open spec fn spec_absolute_url(domain: Seq<char>, href: Seq<char>) -> Seq<char> {
    if spec_is_absolute(href) {
        href
    } else {
        "https://"@ + domain + href
    }
}

/// Makes `href` absolute: one that names a scheme is kept, any other is
/// put behind `https://` and `domain`.
pub fn absolute_url(domain: &str, href: &str) -> (r: String)
    ensures
        r@ == spec_absolute_url(domain@, href@),
{
    let h: Vec<char> = chars_of(href);
    let plain: Vec<char> = chars_of("http://");
    let secure: Vec<char> = chars_of("https://");
    if has_prefix(&h, &plain) || has_prefix(&h, &secure) {
        string_of(&h)
    } else {
        let mut out: Vec<char> = secure;
        let d: Vec<char> = chars_of(domain);
        append_chars(&mut out, &d);
        append_chars(&mut out, &h);
        string_of(&out)
    }
}

/// The slug of a record: the last path segment of its link.
pub fn record_id(href: &str) -> (r: String)
    ensures
        r@ == spec_last_segment(href@),
{
    let h: Vec<char> = chars_of(href);
    let seg: Vec<char> = last_segment(&h);
    string_of(&seg)
}

/// The text of `o`, or `fallback` where there is none.
pub open spec fn spec_or_default(o: Option<Seq<char>>, fallback: Seq<char>) -> Seq<char> {
    match o {
        Some(s) => s,
        None => fallback,
    }
}

/// The catalog entry for a search result: its slug is the last path
/// segment of its link, a missing title becomes "Untitled" and a missing
/// category "Unknown".
pub open spec fn spec_anime_view(
    domain: Seq<char>,
    href: Seq<char>,
    title: Option<Seq<char>>,
    typ: Option<Seq<char>>,
) -> AnimeView {
    AnimeView {
        id: spec_last_segment(href),
        title: spec_or_default(title, "Untitled"@),
        url: spec_absolute_url(domain, href),
        typ: spec_or_default(typ, "Unknown"@),
    }
}

/// Builds the catalog entry for a search result whose link is `href`.
/// A missing title becomes "Untitled", a missing category "Unknown".
pub fn anime_record(domain: &str, href: &str, title: Option<String>, typ: Option<String>) -> (r:
    Anime)
    ensures
        r@ == spec_anime_view(domain@, href@, spec_opt_text(title), spec_opt_text(typ)),
{
    let id: String = record_id(href);
    let url: String = absolute_url(domain, href);
    let title: String = match title {
        Some(t) => t,
        None => string_of(&chars_of("Untitled")),
    };
    let typ: String = match typ {
        Some(t) => t,
        None => string_of(&chars_of("Unknown")),
    };
    Anime { id, title, url, typ }
}

/// The number that `o` holds, or 0.
pub open spec fn spec_or_zero(o: Option<u32>) -> u32 {
    match o {
        Some(n) => n,
        None => 0,
    }
}

/// The number of an episode: the last path segment of its link where that
/// is a number; else the trimmed text of the numeric label; else 0.
pub open spec fn spec_episode_number(href: Seq<char>, label: Option<Seq<char>>) -> u32 {
    match spec_parse_u32(spec_last_segment(href)) {
        Some(n) => n,
        None => match label {
            Some(l) => spec_or_zero(spec_parse_u32(spec_trim(l))),
            None => 0,
        },
    }
}

/// Resolves the number of an episode from its link and, failing that, from
/// the text of its numeric label.
pub fn episode_number(href: &str, label: Option<&str>) -> (r: u32)
    ensures
        r == spec_episode_number(href@, spec_opt_chars(label)),
{
    let h: Vec<char> = chars_of(href);
    let seg: Vec<char> = last_segment(&h);
    match parse_u32(&seg) {
        Some(n) => n,
        None => match label {
            Some(l) => {
                let t: Vec<char> = trim(&chars_of(l));
                match parse_u32(&t) {
                    Some(n) => n,
                    None => 0,
                }
            },
            None => 0,
        },
    }
}

/// `s` without one leading copy of `prefix`.
pub open spec fn spec_strip_prefix(s: Seq<char>, prefix: Seq<char>) -> Seq<char> {
    if prefix.is_prefix_of(s) {
        s.subrange(prefix.len() as int, s.len() as int)
    } else {
        s
    }
}

/// The title that an accessible label of the form "Watch {title} {n}"
/// gives: the label is trimmed and loses the leading verb; where what
/// follows its last space reads as `number`, that token goes too.
pub open spec fn spec_label_title(raw: Seq<char>, number: u32) -> Seq<char> {
    let t = spec_strip_prefix(spec_trim(raw), "Watch "@);
    let cut = spec_after_last(t, ' ');
    if cut > 0 && spec_parse_u32(spec_trim(t.subrange(cut - 1, t.len() as int))) == Some(
        number,
    ) {
        spec_trim(t.subrange(0, cut - 1))
    } else {
        t
    }
}

/// The title synthesized for an episode that has none.
pub open spec fn spec_default_title(number: u32) -> Seq<char> {
    if number > 0 {
        "Episode "@ + spec_decimal(number as nat)
    } else {
        "Episode"@
    }
}

/// The title of an episode: what its label gives, unless that is missing
/// or empty, in which case it is synthesized from the number.
pub open spec fn spec_episode_title(label: Option<Seq<char>>, number: u32) -> Seq<char> {
    match label {
        Some(raw) => if spec_label_title(raw, number).len() > 0 {
            spec_label_title(raw, number)
        } else {
            spec_default_title(number)
        },
        None => spec_default_title(number),
    }
}

/// Splits an accessible label into title and number and returns the title.
pub fn label_title(raw: &str, number: u32) -> (r: Vec<char>)
    ensures
        r@ == spec_label_title(raw@, number),
{
    let trimmed: Vec<char> = trim(&chars_of(raw));
    let verb: Vec<char> = chars_of("Watch ");
    let t: Vec<char> = if has_prefix(&trimmed, &verb) {
        slice_of(&trimmed, verb.len(), trimmed.len())
    } else {
        trimmed
    };
    let cut: usize = after_last(&t, ' ');
    if cut > 0 {
        let token: Vec<char> = trim(&slice_of(&t, cut - 1, t.len()));
        match parse_u32(&token) {
            Some(n) => {
                if n == number {
                    return trim(&slice_of(&t, 0, cut - 1));
                }
            },
            None => {},
        }
    }
    t
}

/// The title synthesized for an episode that has none: "Episode N", or
/// "Episode" alone where the number is 0.
pub fn default_title(number: u32) -> (r: String)
    ensures
        r@ == spec_default_title(number),
{
    if number > 0 {
        let mut out: Vec<char> = chars_of("Episode ");
        let digits: Vec<char> = decimal(number);
        append_chars(&mut out, &digits);
        string_of(&out)
    } else {
        string_of(&chars_of("Episode"))
    }
}

/// The display title of an episode with the resolved number `number`.
pub fn episode_title(label: Option<&str>, number: u32) -> (r: String)
    ensures
        r@ == spec_episode_title(spec_opt_chars(label), number),
{
    match label {
        Some(raw) => {
            let t: Vec<char> = label_title(raw, number);
            if t.len() > 0 {
                string_of(&t)
            } else {
                default_title(number)
            }
        },
        None => default_title(number),
    }
}

/// The record of the episode whose link is `href`.
pub open spec fn spec_episode_view(
    domain: Seq<char>,
    href: Seq<char>,
    number_label: Option<Seq<char>>,
    title_label: Option<Seq<char>>,
) -> EpisodeView {
    EpisodeView {
        id: spec_last_segment(href),
        number: spec_episode_number(href, number_label),
        title: spec_episode_title(title_label, spec_episode_number(href, number_label)),
        url: spec_absolute_url(domain, href),
    }
}

/// Builds the record of the episode whose link is `href`, or nothing where
/// the link is empty. `number_label` is the text of the numeric label and
/// `title_label` that of the accessible label, where the page has them.
pub fn episode_record(
    domain: &str,
    href: &str,
    number_label: Option<&str>,
    title_label: Option<&str>,
) -> (r: Option<Episode>)
    ensures
        r is Some <==> href@.len() > 0,
        r matches Some(e) ==> e@ == spec_episode_view(
            domain@,
            href@,
            spec_opt_chars(number_label),
            spec_opt_chars(title_label),
        ),
{
    if href.unicode_len() == 0 {
        return None;
    }
    let number: u32 = episode_number(href, number_label);
    let title: String = episode_title(title_label, number);
    let id: String = record_id(href);
    let url: String = absolute_url(domain, href);
    Some(Episode { id, number, title, url })
}

} // verus!
