//! Queries on markup, answered by the `scraper` crate.
//!
//! Markup is parsed and searched there; nothing of that is proved here.
//! Each query is a function of its arguments alone, so its answer has a
//! name, and the extraction rules are stated over those names.

use vstd::prelude::*;
use crate::records::spec_opt_text;

verus! {

/// The number of elements that `selector` matches in the document parsed
/// from `html`; 0 where `selector` is not a selector.
pub uninterp spec fn spec_match_count(html: Seq<char>, selector: Seq<char>) -> nat;

/// Within the element that is match number `index` (from 0) of `outer` in
/// the document parsed from `html`: the value of the attribute `attr` of
/// the first descendant that `inner` matches. Nothing where there is no
/// such match, descendant or attribute, or where a selector is not one.
pub uninterp spec fn spec_nested_attr(
    html: Seq<char>,
    outer: Seq<char>,
    index: nat,
    inner: Seq<char>,
    attr: Seq<char>,
) -> Option<Seq<char>>;

/// Within the element that is match number `index` (from 0) of `outer` in
/// the document parsed from `html`: the text nodes below the first
/// descendant that `inner` matches, joined. Nothing where there is no such
/// match or descendant, or where a selector is not one.
pub uninterp spec fn spec_nested_text(
    html: Seq<char>,
    outer: Seq<char>,
    index: nat,
    inner: Seq<char>,
) -> Option<Seq<char>>;

/// The value of the attribute `attr` of the element that is match number
/// `index` (from 0) of `selector` in the document parsed from `html`.
/// Nothing where there is no such match or attribute, or where `selector`
/// is not a selector.
pub uninterp spec fn spec_matched_attr(
    html: Seq<char>,
    selector: Seq<char>,
    index: nat,
    attr: Seq<char>,
) -> Option<Seq<char>>;

/// The text nodes below the element that is match number `index` (from 0)
/// of `selector` in the document parsed from `html`, joined. Nothing where
/// there is no such match, or where `selector` is not a selector.
pub uninterp spec fn spec_matched_text(html: Seq<char>, selector: Seq<char>, index: nat) -> Option<
    Seq<char>,
>;

/// Counts the matches of a selector with `scraper`: `Html::parse_document`,
/// `Selector::parse` and `Html::select`. The contract only names the count.
#[verifier::external_body]
pub(crate) fn count_matches(html: &str, selector: &str) -> (n: usize)
    ensures
        n == spec_match_count(html@, selector@),
{
    let doc = scraper::Html::parse_document(html);
    match scraper::Selector::parse(selector) {
        Ok(sel) => doc.select(&sel).count(),
        Err(_) => 0,
    }
}

/// Reads an attribute with `scraper`: `Html::parse_document`,
/// `Selector::parse`, `Html::select`, `ElementRef::select` and
/// `ElementRef::attr`. The contract only names what was read.
#[verifier::external_body]
pub(crate) fn nested_attr(html: &str, outer: &str, index: usize, inner: &str, attr: &str) -> (r:
    Option<String>)
    ensures
        spec_opt_text(r) == spec_nested_attr(html@, outer@, index as nat, inner@, attr@),
{
    let doc = scraper::Html::parse_document(html);
    match (scraper::Selector::parse(outer), scraper::Selector::parse(inner)) {
        (Ok(o), Ok(i)) => doc.select(&o).nth(index).and_then(|e| e.select(&i).next()).and_then(
            |e| e.attr(attr),
        ).map(|s| s.to_string()),
        _ => None,
    }
}

/// Reads text with `scraper`: `Html::parse_document`, `Selector::parse`,
/// `Html::select`, `ElementRef::select` and `ElementRef::text`. The
/// contract only names what was read.
#[verifier::external_body]
pub(crate) fn nested_text(html: &str, outer: &str, index: usize, inner: &str) -> (r: Option<
    String,
>)
    ensures
        spec_opt_text(r) == spec_nested_text(html@, outer@, index as nat, inner@),
{
    let doc = scraper::Html::parse_document(html);
    match (scraper::Selector::parse(outer), scraper::Selector::parse(inner)) {
        (Ok(o), Ok(i)) => doc.select(&o).nth(index).and_then(|e| e.select(&i).next()).map(
            |e| e.text().collect::<String>(),
        ),
        _ => None,
    }
}

/// Reads an attribute of a match with `scraper`: `Html::parse_document`,
/// `Selector::parse`, `Html::select` and `ElementRef::attr`. The contract
/// only names what was read.
#[verifier::external_body]
pub(crate) fn matched_attr(html: &str, selector: &str, index: usize, attr: &str) -> (r: Option<
    String,
>)
    ensures
        spec_opt_text(r) == spec_matched_attr(html@, selector@, index as nat, attr@),
{
    let doc = scraper::Html::parse_document(html);
    match scraper::Selector::parse(selector) {
        Ok(sel) => doc.select(&sel).nth(index).and_then(|e| e.attr(attr)).map(|s| s.to_string()),
        Err(_) => None,
    }
}

/// Reads the text of a match with `scraper`: `Html::parse_document`,
/// `Selector::parse`, `Html::select` and `ElementRef::text`. The contract
/// only names what was read.
#[verifier::external_body]
pub(crate) fn matched_text(html: &str, selector: &str, index: usize) -> (r: Option<String>)
    ensures
        spec_opt_text(r) == spec_matched_text(html@, selector@, index as nat),
{
    let doc = scraper::Html::parse_document(html);
    match scraper::Selector::parse(selector) {
        Ok(sel) => doc.select(&sel).nth(index).map(|e| e.text().collect::<String>()),
        Err(_) => None,
    }
}

} // verus!
