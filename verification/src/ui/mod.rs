//! Decisions of the main window: mouse buttons, the close dialog, and the
//! shutdown that follows it, with its timeout prompt, and the fullscreen
//! shortcut.

pub mod display;

use vstd::prelude::*;

use crate::spice::protocol::{
    SPICE_MOUSE_BUTTON_EXTRA, SPICE_MOUSE_BUTTON_LEFT, SPICE_MOUSE_BUTTON_MIDDLE,
    SPICE_MOUSE_BUTTON_RIGHT, SPICE_MOUSE_BUTTON_SIDE,
};
use crate::vm::VmState;

verus! {

/// The SPICE button for a GTK button number: 2 and 3 are the middle and
/// right buttons, 8 (back) and 9 (forward) are SPICE's SIDE and EXTRA, and
/// everything else is a left click.
pub open spec fn spec_gtk_button_to_spice(gtk_button: u32) -> i32 {
    if gtk_button == 2 {
        SPICE_MOUSE_BUTTON_MIDDLE
    } else if gtk_button == 3 {
        SPICE_MOUSE_BUTTON_RIGHT
    } else if gtk_button == 8 {
        SPICE_MOUSE_BUTTON_SIDE
    } else if gtk_button == 9 {
        SPICE_MOUSE_BUTTON_EXTRA
    } else {
        SPICE_MOUSE_BUTTON_LEFT
    }
}

/// GTK and SPICE agree on the numbers of the left, middle and right buttons
/// (1, 2, 3); GTK's side buttons 8 and 9 are SPICE's 6 and 7, past the two
/// wheel directions SPICE numbers 4 and 5; any other button is a left click.
pub proof fn lemma_gtk_buttons_keep_their_numbers(gtk_button: u32)
    ensures
        1 <= gtk_button <= 3 ==> spec_gtk_button_to_spice(gtk_button) == gtk_button,
        8 <= gtk_button <= 9 ==> spec_gtk_button_to_spice(gtk_button) == gtk_button - 2,
        !(1 <= gtk_button <= 3 || 8 <= gtk_button <= 9) ==> spec_gtk_button_to_spice(gtk_button)
            == 1,
{
}

/// Map GTK button number to SPICE button constant.
///
/// GTK numbers the side buttons 8 (back) and 9 (forward); SPICE calls the same
/// two SIDE and EXTRA. Mapping them explicitly stops them falling through to a
/// left click.
pub fn gtk_button_to_spice(gtk_button: u32) -> (button: i32)
    ensures
        button == spec_gtk_button_to_spice(gtk_button),
        1 <= gtk_button <= 3 ==> button == gtk_button,
        8 <= gtk_button <= 9 ==> button == gtk_button - 2,
        !(1 <= gtk_button <= 3 || 8 <= gtk_button <= 9) ==> button == 1,
{
    match gtk_button {
        2 => SPICE_MOUSE_BUTTON_MIDDLE,
        3 => SPICE_MOUSE_BUTTON_RIGHT,
        8 => SPICE_MOUSE_BUTTON_SIDE,
        9 => SPICE_MOUSE_BUTTON_EXTRA,
        _ => SPICE_MOUSE_BUTTON_LEFT,
    }
}

/// The ways the close dialog can end.
#[derive(Debug, Clone, Copy, PartialEq, Eq, Structural)]
pub enum CloseChoice {
    /// Shut the VM down, then close the window.
    ShutDown,
    /// Close the window and leave the VM running.
    Detach,
    /// Minimize the window to the dock.
    Minimize,
    /// Do nothing.
    Cancel,
}

/// The choice behind the close dialog's answer: the index of the button
/// pressed ("Shut Down", "Detach", "Minimize", "Cancel"), or `None` when the
/// dialog was dismissed.
pub fn close_choice(button: Option<i32>) -> (choice: CloseChoice)
    ensures
        choice == (match button {
            Some(0) => CloseChoice::ShutDown,
            Some(1) => CloseChoice::Detach,
            Some(2) => CloseChoice::Minimize,
            _ => CloseChoice::Cancel,
        }),
{
    match button {
        Some(0) => CloseChoice::ShutDown,
        Some(1) => CloseChoice::Detach,
        Some(2) => CloseChoice::Minimize,
        _ => CloseChoice::Cancel,
    }
}

/// What one poll for the SPICE display URI leads to.
#[derive(Debug, Clone, PartialEq, Eq)]
pub enum UriPoll {
    /// The display is up: connect to this URI and stop polling.
    Connect(String),
    /// Not yet available: poll again in a second.
    KeepPolling,
    /// The query failed: report it and stop polling.
    GiveUp,
}

/// One poll for the display URI, made once a second after the VM was
/// started: `reported` is what `virsh domdisplay` gave (`Some(None)` while
/// the display is not up, `None` when the query failed).
pub fn uri_poll_step(reported: Option<Option<String>>) -> (step: UriPoll)
    ensures
        step == (match reported {
            Some(Some(uri)) => UriPoll::Connect(uri),
            Some(None) => UriPoll::KeepPolling,
            None => UriPoll::GiveUp,
        }),
{
    match reported {
        Some(Some(uri)) => UriPoll::Connect(uri),
        Some(None) => UriPoll::KeepPolling,
        None => UriPoll::GiveUp,
    }
}

/// Seconds of waiting for a shutdown after which the user is asked whether
/// to force the VM off.
pub const SHUTDOWN_TIMEOUT_SECS: u32 = 60;

/// What one check during a shutdown leads to.
#[derive(Debug, Clone, Copy, PartialEq, Eq, Structural)]
pub enum ShutdownPoll {
    /// The VM is off: close the window.
    ShutOff,
    /// The timeout has passed: stop checking and ask the user whether to
    /// force the VM off or keep waiting.
    AskUser,
    /// The state could not be read: close the window.
    CheckFailed,
    /// Check again in a second.
    KeepWaiting,
}

/// The outcome of one shutdown check, `seconds` into the current wait.
pub open spec fn spec_shutdown_poll(seconds: u32, state: Option<VmState>) -> ShutdownPoll {
    match state {
        Some(VmState::Shutoff) => ShutdownPoll::ShutOff,
        Some(_) => if seconds >= SHUTDOWN_TIMEOUT_SECS {
            ShutdownPoll::AskUser
        } else {
            ShutdownPoll::KeepWaiting
        },
        None => ShutdownPoll::CheckFailed,
    }
}

/// One check of the shutdown, made once a second: `elapsed` checks were made
/// since the wait began (the shutdown was sent, or the user chose to keep
/// waiting), and `state` is what the VM reported (`None` when the state could
/// not be read). The result is the number of seconds waited, for the status
/// line, and what to do next.
pub fn shutdown_poll_step(elapsed: u32, state: Option<VmState>) -> (step: (u32, ShutdownPoll))
    requires
        elapsed < u32::MAX,
    ensures
        step.0 == elapsed + 1,
        step.1 == spec_shutdown_poll(step.0, state),
        step.1 == ShutdownPoll::ShutOff <==> state == Some(VmState::Shutoff),
        step.1 == ShutdownPoll::CheckFailed <==> state is None,
        step.1 == ShutdownPoll::AskUser <==> (state is Some && state != Some(VmState::Shutoff)
            && elapsed + 1 >= SHUTDOWN_TIMEOUT_SECS),
{
    let seconds = elapsed + 1;
    let next = match state {
        Some(VmState::Shutoff) => ShutdownPoll::ShutOff,
        Some(_) => if seconds >= SHUTDOWN_TIMEOUT_SECS {
            ShutdownPoll::AskUser
        } else {
            ShutdownPoll::KeepWaiting
        },
        None => ShutdownPoll::CheckFailed,
    };
    (seconds, next)
}

/// What a check concludes follows from what the VM reported alone: it is
/// off exactly when it reported being shut off, the check failed exactly when
/// nothing could be read, and in every other state the wait goes on until
/// the timeout, when the user is asked.
pub proof fn lemma_shutdown_poll_outcomes(seconds: u32, state: Option<VmState>)
    ensures
        spec_shutdown_poll(seconds, state) == ShutdownPoll::ShutOff <==> state == Some(
            VmState::Shutoff,
        ),
        spec_shutdown_poll(seconds, state) == ShutdownPoll::CheckFailed <==> state is None,
        spec_shutdown_poll(seconds, state) == ShutdownPoll::AskUser <==> (state is Some && state
            != Some(VmState::Shutoff) && seconds >= 60),
        spec_shutdown_poll(seconds, state) == ShutdownPoll::KeepWaiting <==> (state is Some
            && state != Some(VmState::Shutoff) && seconds < 60),
{
}

/// The ways the shutdown-timeout prompt can end.
#[derive(Debug, Clone, Copy, PartialEq, Eq, Structural)]
pub enum TimeoutChoice {
    /// Force the VM off, then close the window.
    ForceOff,
    /// Start a new wait for the shutdown, with the window open.
    KeepWaiting,
}

/// The choice behind the timeout prompt's answer.
pub open spec fn spec_timeout_choice(button: Option<i32>) -> TimeoutChoice {
    match button {
        Some(1) => TimeoutChoice::ForceOff,
        _ => TimeoutChoice::KeepWaiting,
    }
}

/// The choice behind the timeout prompt's answer: the index of the button
/// pressed ("Keep Waiting", "Force Off"), or `None` when the prompt was
/// dismissed. Only an explicit "Force Off" forces the VM off.
pub fn timeout_choice(button: Option<i32>) -> (choice: TimeoutChoice)
    ensures
        choice == spec_timeout_choice(button),
{
    match button {
        Some(1) => TimeoutChoice::ForceOff,
        _ => TimeoutChoice::KeepWaiting,
    }
}

/// The shutdown never waits unasked past the timeout: from the sixtieth
/// check of a wait on, whatever the VM reports, the checks stop.
pub proof fn lemma_shutdown_wait_is_bounded(seconds: u32, state: Option<VmState>)
    requires
        seconds >= SHUTDOWN_TIMEOUT_SECS,
    ensures
        spec_shutdown_poll(seconds, state) != ShutdownPoll::KeepWaiting,
{
}

/// The VM is forced off only on the user's explicit choice: a check never
/// leads to it, and the prompt leads to it exactly when "Force Off" was
/// pressed.
pub proof fn lemma_force_off_only_when_chosen(
    seconds: u32,
    state: Option<VmState>,
    button: Option<i32>,
)
    ensures
        spec_shutdown_poll(seconds, state) == ShutdownPoll::AskUser ==> state != Some(
            VmState::Shutoff,
        ) && seconds >= SHUTDOWN_TIMEOUT_SECS && state.is_some(),
        spec_timeout_choice(button) == TimeoutChoice::ForceOff <==> button == Some(1i32),
{
}

/// What the fullscreen shortcut (F11) does to the window.
#[derive(Debug, Clone, Copy, PartialEq, Eq, Structural)]
pub enum FullscreenChange {
    /// Go fullscreen.
    Enter,
    /// Leave fullscreen and hide the fullscreen toolbar.
    Leave,
}

/// The change that toggles fullscreen from the given state.
pub open spec fn spec_fullscreen_toggle(is_fullscreen: bool) -> FullscreenChange {
    if is_fullscreen {
        FullscreenChange::Leave
    } else {
        FullscreenChange::Enter
    }
}

/// Whether the window is fullscreen after a change.
pub open spec fn fullscreen_after(change: FullscreenChange) -> bool {
    change == FullscreenChange::Enter
}

/// The change the fullscreen shortcut makes: a fullscreen window leaves
/// fullscreen, any other enters it.
pub fn fullscreen_toggle(is_fullscreen: bool) -> (change: FullscreenChange)
    ensures
        change == spec_fullscreen_toggle(is_fullscreen),
{
    if is_fullscreen {
        FullscreenChange::Leave
    } else {
        FullscreenChange::Enter
    }
}

/// The shortcut flips fullscreen, so pressing it twice restores the window.
pub proof fn lemma_fullscreen_toggle_twice(is_fullscreen: bool)
    ensures
        fullscreen_after(spec_fullscreen_toggle(is_fullscreen)) == !is_fullscreen,
        fullscreen_after(
            spec_fullscreen_toggle(fullscreen_after(spec_fullscreen_toggle(is_fullscreen))),
        ) == is_fullscreen,
{
}

} // verus!
