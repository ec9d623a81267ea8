//! The interactive session that reveals the video sources of a page: a
//! driver process is started, a remote browser session is opened through
//! it, each server button is clicked and the frame it reveals is read.
//!
//! The caller does the outside work, one step at a time, and reports
//! whether it went through. The functions here decide what comes next,
//! so that a failure at one button stays with that button and the driver
//! and the session are shut down however the operation ends.

use vstd::prelude::*;
use crate::error::ScrapeError;
use crate::number::{push_decimal, spec_decimal};
use crate::sources::SkipReason;
use crate::text::{chars_of, string_of};

verus! {

/// The programs that the session needs, as found on the host.
#[derive(Debug, Clone, PartialEq, Eq)]
pub struct Binaries {
    /// Path of the driver.
    pub driver: String,
    /// Path of the browser.
    pub browser: String,
}

/// Tells whether one of the candidates was found.
pub open spec fn spec_any_found(found: Seq<Option<String>>) -> bool {
    exists|i: int| 0 <= i < found.len() && (#[trigger] found[i]) is Some
}

/// Tells whether `path` is the first candidate that was found.
pub open spec fn spec_first_found(found: Seq<Option<String>>, path: Seq<char>) -> bool {
    exists|i: int|
        0 <= i < found.len() && spec_found_at(found, i, path) && forall|k: int|
            0 <= k < i ==> (#[trigger] found[k]) is None
}

/// Tells whether candidate number `i` was found at `path`.
pub open spec fn spec_found_at(found: Seq<Option<String>>, i: int, path: Seq<char>) -> bool {
    match found[i] {
        Some(p) => p@ == path,
        None => false,
    }
}

/// Picks the programs for a session. `driver` is the path of the driver
/// where it was found; `browsers` holds, for each browser that will do,
/// in order of preference, its path where it was found. Without driver,
/// or without any browser, the session cannot start.
pub fn choose_binaries(driver: Option<&str>, browsers: &Vec<Option<String>>) -> (r: Result<
    Binaries,
    ScrapeError,
>)
    ensures
        r is Ok <==> driver is Some && spec_any_found(browsers@),
        r matches Err(e) ==> e == ScrapeError::MissingBinary,
        r matches Ok(b) ==> driver matches Some(d) && b.driver@ == d@ && spec_first_found(
            browsers@,
            b.browser@,
        ),
{
    match driver {
        None => Err(ScrapeError::MissingBinary),
        Some(d) => {
            let mut i: usize = 0;
            while i < browsers.len()
                invariant
                    i <= browsers.len(),
                    driver == Some(d),
                    forall|k: int| 0 <= k < i ==> (#[trigger] browsers@[k]) is None,
                decreases browsers.len() - i,
            {
                match &browsers[i] {
                    Some(path) => {
                        let browser: String = path.clone();
                        proof {
                            assert(browsers@[i as int] is Some);
                            assert(spec_found_at(browsers@, i as int, browser@));
                        }
                        return Ok(Binaries { driver: d.to_owned(), browser });
                    },
                    None => {},
                }
                i += 1;
            }
            Err(ScrapeError::MissingBinary)
        },
    }
}

/// A step of the work on one button.
#[derive(Debug, Clone, Copy, PartialEq, Eq, Structural)]
pub enum ButtonStep {
    /// Read the text of the button.
    ReadLabel,
    /// Scroll the button into view.
    ScrollIntoView,
    /// Click the button.
    Click,
    /// Click the button by a script.
    ScriptClick,
    /// Wait for the frame to load.
    Settle,
    /// Find the frame. The first frame of the page is taken: nothing
    /// confirms that it is the one that the click revealed.
    FindFrame,
}

/// What follows a step of the work on one button.
#[derive(Debug, Clone, Copy, PartialEq, Eq, Structural)]
pub enum ButtonNext {
    /// Do this step next.
    Do(ButtonStep),
    /// The frame was found: read its address.
    ReadAddress,
    /// Pass this button over and go on with the next.
    Skip(SkipReason),
}

/// What follows `step`, which went through or did not. A scroll that
/// fails is ignored; a click that fails is tried again by a script.
pub open spec fn spec_after_step(step: ButtonStep, succeeded: bool) -> ButtonNext {
    match step {
        ButtonStep::ReadLabel => if succeeded {
            ButtonNext::Do(ButtonStep::ScrollIntoView)
        } else {
            ButtonNext::Skip(SkipReason::LabelUnreadable)
        },
        ButtonStep::ScrollIntoView => ButtonNext::Do(ButtonStep::Click),
        ButtonStep::Click => if succeeded {
            ButtonNext::Do(ButtonStep::Settle)
        } else {
            ButtonNext::Do(ButtonStep::ScriptClick)
        },
        ButtonStep::ScriptClick => if succeeded {
            ButtonNext::Do(ButtonStep::Settle)
        } else {
            ButtonNext::Skip(SkipReason::ClickFailed)
        },
        ButtonStep::Settle => ButtonNext::Do(ButtonStep::FindFrame),
        ButtonStep::FindFrame => if succeeded {
            ButtonNext::ReadAddress
        } else {
            ButtonNext::Skip(SkipReason::NoFrame)
        },
    }
}

/// How far the work on one button has got.
pub open spec fn spec_step_rank(step: ButtonStep) -> nat {
    match step {
        ButtonStep::ReadLabel => 0,
        ButtonStep::ScrollIntoView => 1,
        ButtonStep::Click => 2,
        ButtonStep::ScriptClick => 3,
        ButtonStep::Settle => 4,
        ButtonStep::FindFrame => 5,
    }
}

/// Decides what follows a step of the work on one button.
pub fn after_step(step: ButtonStep, succeeded: bool) -> (r: ButtonNext)
    ensures
        r == spec_after_step(step, succeeded),
        r matches ButtonNext::Do(next) ==> spec_step_rank(next) > spec_step_rank(step),
{
    match step {
        ButtonStep::ReadLabel => if succeeded {
            ButtonNext::Do(ButtonStep::ScrollIntoView)
        } else {
            ButtonNext::Skip(SkipReason::LabelUnreadable)
        },
        ButtonStep::ScrollIntoView => ButtonNext::Do(ButtonStep::Click),
        ButtonStep::Click => if succeeded {
            ButtonNext::Do(ButtonStep::Settle)
        } else {
            ButtonNext::Do(ButtonStep::ScriptClick)
        },
        ButtonStep::ScriptClick => if succeeded {
            ButtonNext::Do(ButtonStep::Settle)
        } else {
            ButtonNext::Skip(SkipReason::ClickFailed)
        },
        ButtonStep::Settle => ButtonNext::Do(ButtonStep::FindFrame),
        ButtonStep::FindFrame => if succeeded {
            ButtonNext::ReadAddress
        } else {
            ButtonNext::Skip(SkipReason::NoFrame)
        },
    }
}

/// A phase of the whole session.
#[derive(Debug, Clone, Copy, PartialEq, Eq, Structural)]
pub enum Phase {
    /// Look for the driver and a browser on the host.
    CheckBinaries,
    /// Start the driver process.
    StartDriver,
    /// Give the driver time to open its port.
    AwaitDriver,
    /// Open the remote browser session.
    Connect,
    /// Open the page.
    Navigate,
    /// Wait for the server buttons.
    AwaitButtons,
    /// List the server buttons.
    ListButtons,
    /// Work through the buttons, one by one.
    Buttons,
    /// Close the remote browser session.
    CloseSession,
    /// Stop the driver process.
    StopDriver,
    /// Nothing is left to do.
    Finished,
}

/// Where a session stands: the phase to do next, and the first failure
/// met so far.
#[derive(Debug, Clone, Copy, PartialEq, Eq, Structural)]
pub struct SessionState {
    /// The phase to do next.
    pub phase: Phase,
    /// The first failure met, which the operation will report.
    pub failure: Option<ScrapeError>,
}

/// Tells whether the driver process runs while `phase` is to be done.
pub open spec fn spec_driver_running(phase: Phase) -> bool {
    phase != Phase::CheckBinaries && phase != Phase::StartDriver && phase != Phase::Finished
}

/// Tells whether the remote session is open while `phase` is to be done.
pub open spec fn spec_session_open(phase: Phase) -> bool {
    phase == Phase::Navigate || phase == Phase::AwaitButtons || phase == Phase::ListButtons
        || phase == Phase::Buttons || phase == Phase::CloseSession
}

/// How far a session has got.
pub open spec fn spec_phase_rank(phase: Phase) -> nat {
    match phase {
        Phase::CheckBinaries => 0,
        Phase::StartDriver => 1,
        Phase::AwaitDriver => 2,
        Phase::Connect => 3,
        Phase::Navigate => 4,
        Phase::AwaitButtons => 5,
        Phase::ListButtons => 6,
        Phase::Buttons => 7,
        Phase::CloseSession => 8,
        Phase::StopDriver => 9,
        Phase::Finished => 10,
    }
}

/// The failure that is reported when `phase` did not go through.
pub open spec fn spec_phase_failure(phase: Phase) -> ScrapeError {
    match phase {
        Phase::CheckBinaries => ScrapeError::MissingBinary,
        Phase::StartDriver => ScrapeError::BrowserLaunch,
        Phase::AwaitDriver => ScrapeError::BrowserLaunch,
        Phase::Connect => ScrapeError::BrowserLaunch,
        Phase::Navigate => ScrapeError::Navigation,
        Phase::AwaitButtons => ScrapeError::RenderTimeout,
        Phase::ListButtons => ScrapeError::Extraction,
        Phase::Buttons => ScrapeError::Extraction,
        Phase::CloseSession => ScrapeError::Transport,
        Phase::StopDriver => ScrapeError::Transport,
        Phase::Finished => ScrapeError::Transport,
    }
}

/// The phase that follows `phase`, which went through or did not. After a
/// failure nothing more is tried but what shuts down what was started.
pub open spec fn spec_next_phase(phase: Phase, succeeded: bool) -> Phase {
    match phase {
        Phase::CheckBinaries => if succeeded {
            Phase::StartDriver
        } else {
            Phase::Finished
        },
        Phase::StartDriver => if succeeded {
            Phase::AwaitDriver
        } else {
            Phase::Finished
        },
        Phase::AwaitDriver => Phase::Connect,
        Phase::Connect => if succeeded {
            Phase::Navigate
        } else {
            Phase::StopDriver
        },
        Phase::Navigate => if succeeded {
            Phase::AwaitButtons
        } else {
            Phase::CloseSession
        },
        Phase::AwaitButtons => if succeeded {
            Phase::ListButtons
        } else {
            Phase::CloseSession
        },
        Phase::ListButtons => if succeeded {
            Phase::Buttons
        } else {
            Phase::CloseSession
        },
        Phase::Buttons => Phase::CloseSession,
        Phase::CloseSession => Phase::StopDriver,
        Phase::StopDriver => Phase::Finished,
        Phase::Finished => Phase::Finished,
    }
}

/// Tells whether a failure of `phase` counts. The pause for the driver
/// and the work on the buttons cannot fail the session: a button that
/// fails is passed over.
pub open spec fn spec_can_fail(phase: Phase) -> bool {
    phase != Phase::AwaitDriver && phase != Phase::Buttons && phase != Phase::Finished
}

/// The state that follows `state` once its phase went through or did not.
/// The first failure is kept.
pub open spec fn spec_advance(state: SessionState, succeeded: bool) -> SessionState {
    SessionState {
        phase: spec_next_phase(state.phase, succeeded),
        failure: if state.failure is None && !succeeded && spec_can_fail(state.phase) {
            Some(spec_phase_failure(state.phase))
        } else {
            state.failure
        },
    }
}

/// The state in which every session starts.
pub fn start() -> (r: SessionState)
    ensures
        r == (SessionState { phase: Phase::CheckBinaries, failure: None }),
{
    SessionState { phase: Phase::CheckBinaries, failure: None }
}

/// The failure that is reported when `phase` did not go through.
pub fn phase_failure(phase: Phase) -> (r: ScrapeError)
    ensures
        r == spec_phase_failure(phase),
{
    match phase {
        Phase::CheckBinaries => ScrapeError::MissingBinary,
        Phase::StartDriver => ScrapeError::BrowserLaunch,
        Phase::AwaitDriver => ScrapeError::BrowserLaunch,
        Phase::Connect => ScrapeError::BrowserLaunch,
        Phase::Navigate => ScrapeError::Navigation,
        Phase::AwaitButtons => ScrapeError::RenderTimeout,
        Phase::ListButtons => ScrapeError::Extraction,
        Phase::Buttons => ScrapeError::Extraction,
        Phase::CloseSession => ScrapeError::Transport,
        Phase::StopDriver => ScrapeError::Transport,
        Phase::Finished => ScrapeError::Transport,
    }
}

/// The phase that follows `phase`.
pub fn next_phase(phase: Phase, succeeded: bool) -> (r: Phase)
    ensures
        r == spec_next_phase(phase, succeeded),
{
    match phase {
        Phase::CheckBinaries => if succeeded {
            Phase::StartDriver
        } else {
            Phase::Finished
        },
        Phase::StartDriver => if succeeded {
            Phase::AwaitDriver
        } else {
            Phase::Finished
        },
        Phase::AwaitDriver => Phase::Connect,
        Phase::Connect => if succeeded {
            Phase::Navigate
        } else {
            Phase::StopDriver
        },
        Phase::Navigate => if succeeded {
            Phase::AwaitButtons
        } else {
            Phase::CloseSession
        },
        Phase::AwaitButtons => if succeeded {
            Phase::ListButtons
        } else {
            Phase::CloseSession
        },
        Phase::ListButtons => if succeeded {
            Phase::Buttons
        } else {
            Phase::CloseSession
        },
        Phase::Buttons => Phase::CloseSession,
        Phase::CloseSession => Phase::StopDriver,
        Phase::StopDriver => Phase::Finished,
        Phase::Finished => Phase::Finished,
    }
}

/// Moves a session on: `succeeded` says whether the phase of `state`
/// went through.
pub fn advance(state: SessionState, succeeded: bool) -> (r: SessionState)
    ensures
        r == spec_advance(state, succeeded),
{
    let can_fail: bool = match state.phase {
        Phase::AwaitDriver => false,
        Phase::Buttons => false,
        Phase::Finished => false,
        _ => true,
    };
    let failure: Option<ScrapeError> = match state.failure {
        Some(e) => Some(e),
        None => if !succeeded && can_fail {
            Some(phase_failure(state.phase))
        } else {
            None
        },
    };
    SessionState { phase: next_phase(state.phase, succeeded), failure }
}

/// Whatever happens, a session shuts down what it started: while the
/// remote session is open the only way on leads through its closing, and
/// while the driver runs the only way to the end leads through its
/// stopping. A session always moves forward, and the first failure is the
/// one that is reported.
pub proof fn lemma_session_shuts_down(state: SessionState, succeeded: bool)
    ensures
        spec_driver_running(state.phase) && spec_advance(state, succeeded).phase
            == Phase::Finished ==> state.phase == Phase::StopDriver,
        spec_session_open(state.phase) && !spec_session_open(spec_advance(state, succeeded).phase)
            ==> state.phase == Phase::CloseSession,
        spec_driver_running(state.phase) && state.phase != Phase::StopDriver
            ==> spec_driver_running(spec_advance(state, succeeded).phase),
        state.phase != Phase::Finished ==> spec_phase_rank(spec_advance(state, succeeded).phase)
            > spec_phase_rank(state.phase),
        state.failure is Some ==> spec_advance(state, succeeded).failure == state.failure,
        !succeeded && spec_can_fail(state.phase) ==> spec_advance(state, succeeded).failure
            is Some,
        !succeeded && spec_can_fail(state.phase) ==> spec_advance(state, succeeded).phase
            != Phase::Buttons,
{
}

/// The control port on which the driver is started.
pub const DRIVER_PORT: u16 = 9515;

/// How many seconds the driver is given to open its port, and a frame to
/// load after a click.
pub const SETTLE_SECONDS: u64 = 2;

/// The arguments with which the driver starts the browser: without a
/// window, without sandbox and without graphics hardware.
pub fn browser_arguments() -> (r: Vec<String>)
    ensures
        r@.len() == 3,
        r@[0]@ == "--headless"@,
        r@[1]@ == "--no-sandbox"@,
        r@[2]@ == "--disable-gpu"@,
{
    let mut r: Vec<String> = Vec::new();
    r.push("--headless".to_owned());
    r.push("--no-sandbox".to_owned());
    r.push("--disable-gpu".to_owned());
    r
}

/// The address of the driver's control port on this host.
pub open spec fn spec_driver_url(port: u16) -> Seq<char> {
    "http://localhost:"@ + spec_decimal(port as nat)
}

/// The argument that tells the driver its control port.
pub open spec fn spec_port_argument(port: u16) -> Seq<char> {
    "--port="@ + spec_decimal(port as nat)
}

/// The address of the driver's control port on this host.
pub fn driver_url(port: u16) -> (r: String)
    ensures
        r@ == spec_driver_url(port),
{
    let mut out: Vec<char> = chars_of("http://localhost:");
    push_decimal(&mut out, port as u32);
    string_of(&out)
}

/// The argument that tells the driver its control port.
pub fn port_argument(port: u16) -> (r: String)
    ensures
        r@ == spec_port_argument(port),
{
    let mut out: Vec<char> = chars_of("--port=");
    push_decimal(&mut out, port as u32);
    string_of(&out)
}

} // verus!
