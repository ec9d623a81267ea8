//! Video sources: what each server button of an episode page stands for.

use vstd::prelude::*;
use crate::records::{spec_opt_chars, spec_source_views, VideoSource, VideoSourceView};
use crate::text::{chars_of, has_name, spec_has_name, spec_trim, string_of, trim};

verus! {

/// The address that stands for "not resolved yet: the page has to be
/// rendered and the button clicked".
pub open spec fn spec_unresolved_url() -> Seq<char> {
    "unresolved:requires-interactive-rendering"@
}

/// The address that stands for a source that was not resolved yet.
pub fn unresolved_url() -> (r: String)
    ensures
        r@ == spec_unresolved_url(),
{
    "unresolved:requires-interactive-rendering".to_owned()
}

/// Tells whether a source has an address that can be played.
pub fn is_resolved(source: &VideoSource) -> (r: bool)
    ensures
        r == (source.url@ != spec_unresolved_url()),
{
    let marker: String = unresolved_url();
    !(source.url == marker)
}

/// A server button as static markup shows it.
#[derive(Debug, Clone, PartialEq, Eq)]
pub struct ServerButton {
    /// The text of the button.
    pub label: String,
    /// Whether the button carries the marker of the active server.
    pub active: bool,
}

/// Reads a server button off static markup: `label` is its text and
/// `classes` its class list, if it has one. The button is the active one
/// where the class list holds the name `marker`.
pub fn server_button(label: &str, classes: Option<&str>, marker: &str) -> (r: ServerButton)
    ensures
        r.label@ == label@,
        r.active == match classes {
            Some(list) => spec_has_name(list@, marker@),
            None => false,
        },
{
    let active: bool = match classes {
        Some(list) => has_name(&chars_of(list), &chars_of(marker)),
        None => false,
    };
    ServerButton { label: label.to_owned(), active }
}

/// The address of a button's source on a page that shows one frame: the
/// frame belongs to the active button, and only where it has an address;
/// every other source is unresolved.
pub open spec fn spec_button_url(active: bool, frame: Option<Seq<char>>) -> Seq<char> {
    match frame {
        Some(src) => if active && src.len() > 0 {
            src
        } else {
            spec_unresolved_url()
        },
        None => spec_unresolved_url(),
    }
}

/// The source that a button of a statically extracted page stands for.
pub open spec fn spec_button_source(
    label: Seq<char>,
    active: bool,
    frame: Option<Seq<char>>,
) -> VideoSourceView {
    VideoSourceView {
        server: spec_trim(label),
        url: spec_button_url(active, frame),
        quality: None,
    }
}

/// The sources of a statically extracted page, one for each button.
pub open spec fn spec_assigned(buttons: Seq<ServerButton>, frame: Option<Seq<char>>) -> Seq<
    VideoSourceView,
> {
    Seq::new(
        buttons.len(),
        |i: int| spec_button_source(buttons[i].label@, buttons[i].active, frame),
    )
}

/// The trimmed text of a button.
fn server_label(label: &str) -> (r: String)
    ensures
        r@ == spec_trim(label@),
{
    string_of(&trim(&chars_of(label)))
}

/// Gives each server button of a statically extracted page its source:
/// the active button gets the address of the page's frame, every other
/// button the unresolved marker, since its content is not in the markup.
pub fn assign_sources(buttons: &Vec<ServerButton>, frame_src: Option<&str>) -> (out: Vec<
    VideoSource,
>)
    ensures
        spec_source_views(out@) == spec_assigned(buttons@, spec_opt_chars(frame_src)),
{
    let mut out: Vec<VideoSource> = Vec::new();
    let mut i: usize = 0;
    while i < buttons.len()
        invariant
            i <= buttons.len(),
            out@.len() == i,
            forall|k: int|
                0 <= k < i ==> out@[k]@ == spec_button_source(
                    buttons@[k].label@,
                    buttons@[k].active,
                    spec_opt_chars(frame_src),
                ),
        decreases buttons.len() - i,
    {
        let button: &ServerButton = &buttons[i];
        let url: String = match frame_src {
            Some(src) => {
                if button.active && src.unicode_len() > 0 {
                    src.to_owned()
                } else {
                    unresolved_url()
                }
            },
            None => unresolved_url(),
        };
        out.push(VideoSource { server: server_label(button.label.as_str()), url, quality: None });
        i += 1;
    }
    proof {
        assert(spec_source_views(out@) =~= spec_assigned(buttons@, spec_opt_chars(frame_src)));
    }
    out
}

/// Why a button gave no source.
#[derive(Debug, Clone, Copy, PartialEq, Eq, Structural)]
pub enum SkipReason {
    /// The text of the button could not be read.
    LabelUnreadable,
    /// Neither the click nor the scripted click went through.
    ClickFailed,
    /// No frame was found after the click.
    NoFrame,
    /// The frame has no address, or an empty one.
    NoAddress,
}

/// What one button of an interactively rendered page gave.
#[derive(Debug, Clone, PartialEq, Eq)]
pub enum ButtonOutcome {
    /// The button revealed this source.
    Source(VideoSource),
    /// The button was passed over.
    Skipped(SkipReason),
}

/// The address that a frame gives: its source attribute, unless that is
/// missing or empty.
pub open spec fn spec_frame_address(src: Option<Seq<char>>) -> Option<Seq<char>> {
    match src {
        Some(u) => if u.len() > 0 {
            Some(u)
        } else {
            None
        },
        None => None,
    }
}

/// Makes the outcome of a button whose click went through and whose frame
/// was found: `src` is the source attribute of the frame, if it has one.
/// A frame with an address gives a source under the trimmed text of the
/// button; a frame without one has the button passed over.
pub fn frame_outcome(label: &str, src: Option<&str>) -> (r: ButtonOutcome)
    ensures
        match spec_frame_address(spec_opt_chars(src)) {
            Some(u) => r matches ButtonOutcome::Source(v) && v@ == (VideoSourceView {
                server: spec_trim(label@),
                url: u,
                quality: None,
            }),
            None => r == ButtonOutcome::Skipped(SkipReason::NoAddress),
        },
{
    match src {
        Some(u) => {
            if u.unicode_len() > 0 {
                ButtonOutcome::Source(
                    VideoSource { server: server_label(label), url: u.to_owned(), quality: None },
                )
            } else {
                ButtonOutcome::Skipped(SkipReason::NoAddress)
            }
        },
        None => ButtonOutcome::Skipped(SkipReason::NoAddress),
    }
}

/// The sources among `outcomes`, in order.
pub open spec fn spec_collected_sources(outcomes: Seq<ButtonOutcome>) -> Seq<VideoSourceView>
    decreases outcomes.len(),
{
    if outcomes.len() == 0 {
        Seq::empty()
    } else {
        let before = spec_collected_sources(outcomes.drop_last());
        match outcomes.last() {
            ButtonOutcome::Source(v) => before.push(v@),
            ButtonOutcome::Skipped(_) => before,
        }
    }
}

/// The reasons of the skips among `outcomes`, in order.
pub open spec fn spec_collected_skips(outcomes: Seq<ButtonOutcome>) -> Seq<SkipReason>
    decreases outcomes.len(),
{
    if outcomes.len() == 0 {
        Seq::empty()
    } else {
        let before = spec_collected_skips(outcomes.drop_last());
        match outcomes.last() {
            ButtonOutcome::Source(_) => before,
            ButtonOutcome::Skipped(why) => before.push(why),
        }
    }
}

/// What the buttons of a page gave: the sources, and why the others were
/// passed over.
#[derive(Debug, Clone, PartialEq, Eq)]
pub struct SourceReport {
    /// The sources that were revealed, in the order of their buttons.
    pub sources: Vec<VideoSource>,
    /// Why each other button was passed over, in the order of the buttons.
    pub skipped: Vec<SkipReason>,
}

/// A copy of an optional string.
fn copy_opt(o: &Option<String>) -> (r: Option<String>)
    ensures
        r is Some <==> o is Some,
        r matches Some(s) ==> o matches Some(t) && s@ == t@,
{
    match o {
        Some(s) => Some(s.clone()),
        None => None,
    }
}

/// Collects the outcomes of all buttons into one report. A button that
/// was passed over takes nothing away from the others: every source among
/// the outcomes is in the report.
pub fn collect_outcomes(outcomes: &Vec<ButtonOutcome>) -> (report: SourceReport)
    ensures
        spec_source_views(report.sources@) == spec_collected_sources(outcomes@),
        report.skipped@ == spec_collected_skips(outcomes@),
        report.sources@.len() + report.skipped@.len() == outcomes@.len(),
{
    let mut sources: Vec<VideoSource> = Vec::new();
    let mut skipped: Vec<SkipReason> = Vec::new();
    let mut i: usize = 0;
    proof {
        assert(spec_source_views(sources@) =~= Seq::<VideoSourceView>::empty());
        assert(outcomes@.subrange(0, 0) =~= Seq::<ButtonOutcome>::empty());
    }
    while i < outcomes.len()
        invariant
            i <= outcomes.len(),
            spec_source_views(sources@) == spec_collected_sources(outcomes@.subrange(0, i as int)),
            skipped@ == spec_collected_skips(outcomes@.subrange(0, i as int)),
            sources@.len() + skipped@.len() == i,
        decreases outcomes.len() - i,
    {
        let ghost before = spec_source_views(sources@);
        proof {
            assert(outcomes@.subrange(0, i + 1).drop_last() =~= outcomes@.subrange(0, i as int));
            assert(outcomes@.subrange(0, i + 1).last() == outcomes@[i as int]);
        }
        match &outcomes[i] {
            ButtonOutcome::Source(v) => {
                let copy: VideoSource = VideoSource {
                    server: v.server.clone(),
                    url: v.url.clone(),
                    quality: copy_opt(&v.quality),
                };
                proof {
                    assert(copy@ == v@);
                }
                sources.push(copy);
                proof {
                    assert(spec_source_views(sources@) =~= before.push(v@));
                }
            },
            ButtonOutcome::Skipped(why) => {
                skipped.push(*why);
            },
        }
        i += 1;
    }
    proof {
        assert(outcomes@.subrange(0, outcomes.len() as int) =~= outcomes@);
    }
    SourceReport { sources, skipped }
}

} // verus!
