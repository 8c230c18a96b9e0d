use vmlaunch::spice::protocol::{
    SPICE_MOUSE_BUTTON_EXTRA, SPICE_MOUSE_BUTTON_LEFT, SPICE_MOUSE_BUTTON_MIDDLE,
    SPICE_MOUSE_BUTTON_RIGHT, SPICE_MOUSE_BUTTON_SIDE,
};
use vmlaunch::ui::display::{on_display_ready, GpuDisplay};
use vmlaunch::spice::Framebuffer;
use vmlaunch::ui::{
    close_choice, fullscreen_toggle, gtk_button_to_spice, shutdown_poll_step, timeout_choice,
    uri_poll_step, CloseChoice, FullscreenChange, ShutdownPoll, TimeoutChoice, UriPoll,
};
use vmlaunch::vm::VmState;

#[test]
fn maps_the_three_standard_mouse_buttons() {
    assert_eq!(gtk_button_to_spice(1), SPICE_MOUSE_BUTTON_LEFT);
    assert_eq!(gtk_button_to_spice(2), SPICE_MOUSE_BUTTON_MIDDLE);
    assert_eq!(gtk_button_to_spice(3), SPICE_MOUSE_BUTTON_RIGHT);
}

/// The side buttons must reach the guest as SIDE/EXTRA rather than
/// falling through to a left click.
#[test]
fn maps_the_side_buttons() {
    assert_eq!(gtk_button_to_spice(8), SPICE_MOUSE_BUTTON_SIDE);
    assert_eq!(gtk_button_to_spice(9), SPICE_MOUSE_BUTTON_EXTRA);
}

/// Anything else is treated as a left click.
#[test]
fn unknown_buttons_fall_back_to_left_click() {
    assert_eq!(gtk_button_to_spice(1), SPICE_MOUSE_BUTTON_LEFT);
    assert_eq!(gtk_button_to_spice(0), SPICE_MOUSE_BUTTON_LEFT);
    assert_eq!(gtk_button_to_spice(42), SPICE_MOUSE_BUTTON_LEFT);
}

#[test]
fn close_dialog_answers_map_to_choices() {
    assert_eq!(close_choice(Some(0)), CloseChoice::ShutDown);
    assert_eq!(close_choice(Some(1)), CloseChoice::Detach);
    assert_eq!(close_choice(Some(2)), CloseChoice::Minimize);
    assert_eq!(close_choice(Some(3)), CloseChoice::Cancel);
    assert_eq!(close_choice(None), CloseChoice::Cancel);
}

#[test]
fn shutdown_poll_waits_then_asks() {
    assert_eq!(shutdown_poll_step(0, Some(VmState::Running)), (1, ShutdownPoll::KeepWaiting));
    assert_eq!(shutdown_poll_step(58, Some(VmState::Other)), (59, ShutdownPoll::KeepWaiting));
    assert_eq!(shutdown_poll_step(59, Some(VmState::Running)), (60, ShutdownPoll::AskUser));
    assert_eq!(shutdown_poll_step(59, Some(VmState::Shutoff)), (60, ShutdownPoll::ShutOff));
    assert_eq!(shutdown_poll_step(3, Some(VmState::Shutoff)), (4, ShutdownPoll::ShutOff));
    assert_eq!(shutdown_poll_step(3, None), (4, ShutdownPoll::CheckFailed));
    assert_eq!(shutdown_poll_step(120, Some(VmState::Paused)), (121, ShutdownPoll::AskUser));
}

#[test]
fn timeout_prompt_forces_off_only_when_chosen() {
    assert_eq!(timeout_choice(Some(1)), TimeoutChoice::ForceOff);
    assert_eq!(timeout_choice(Some(0)), TimeoutChoice::KeepWaiting);
    assert_eq!(timeout_choice(None), TimeoutChoice::KeepWaiting);
    assert_eq!(timeout_choice(Some(7)), TimeoutChoice::KeepWaiting);
}

fn fb(width: i32, height: i32, stride: i32) -> Option<Framebuffer> {
    Some(Framebuffer { width, height, stride })
}

#[test]
fn display_renders_once_per_invalidation() {
    let mut display = GpuDisplay::new(800, 600, 3200);
    assert_eq!((display.width(), display.height()), (800, 600));
    assert_eq!(display.render_if_dirty(fb(800, 600, 3200)), Some(1_920_000));
    assert_eq!(display.render_if_dirty(fb(800, 600, 3200)), None);
    display.mark_dirty();
    assert_eq!(display.render_if_dirty(None), None, "no framebuffer, nothing drawn");
    assert_eq!(display.render_if_dirty(fb(800, 600, 3200)), None, "the flag was used up");
    display.resize(1024, 768, 4096);
    assert_eq!((display.width(), display.height()), (1024, 768));
    assert_eq!(display.render_if_dirty(fb(1024, 768, 4096)), Some(4096 * 768));
}

/// The frame is sized from the geometry SPICE reported with the buffer, not
/// from the display's own, so a stale display size never over-reads.
#[test]
fn frame_size_follows_the_framebuffer() {
    let mut display = GpuDisplay::new(1000, 700, 4000);
    assert_eq!(display.render_if_dirty(fb(800, 600, 3200)), Some(1_920_000));
}

#[test]
fn uri_polls_connect_wait_or_give_up() {
    let uri = "spice://127.0.0.1:5900".to_string();
    assert_eq!(uri_poll_step(Some(Some(uri.clone()))), UriPoll::Connect(uri));
    assert_eq!(uri_poll_step(Some(None)), UriPoll::KeepPolling);
    assert_eq!(uri_poll_step(None), UriPoll::GiveUp);
}

#[test]
fn display_ready_creates_then_resizes_with_four_bytes_per_pixel() {
    let mut display: Option<GpuDisplay> = None;
    on_display_ready(&mut display, 640, 480);
    let d = display.as_mut().expect("created on the first report");
    assert_eq!((d.width(), d.height()), (640, 480));
    assert_eq!(d.render_if_dirty(fb(640, 480, 2560)), Some(640 * 4 * 480));
    on_display_ready(&mut display, 1280, 720);
    let d = display.as_mut().expect("still there");
    assert_eq!((d.width(), d.height()), (1280, 720));
    assert_eq!(d.render_if_dirty(fb(1280, 720, 5120)), Some(1280 * 4 * 720));
}

#[test]
fn f11_toggles_fullscreen() {
    assert_eq!(fullscreen_toggle(true), FullscreenChange::Leave);
    assert_eq!(fullscreen_toggle(false), FullscreenChange::Enter);
}
