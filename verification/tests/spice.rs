use vmlaunch::spice::clipboard::{offers_utf8_text, serves_request, ClipboardBridge};
use vmlaunch::spice::keymap::{XT_DELETE, XT_LEFT_ALT, XT_LEFT_CTRL};
use vmlaunch::spice::protocol::{
    SPICE_CHANNEL_CURSOR, SPICE_CHANNEL_DISPLAY, SPICE_CHANNEL_INPUTS, SPICE_CHANNEL_MAIN,
    SPICE_CHANNEL_PLAYBACK, SPICE_MOUSE_BUTTON_DOWN, SPICE_MOUSE_BUTTON_EXTRA,
    SPICE_MOUSE_BUTTON_LEFT, SPICE_MOUSE_BUTTON_MASK_EXTRA, SPICE_MOUSE_BUTTON_MASK_LEFT,
    SPICE_MOUSE_BUTTON_MASK_MIDDLE, SPICE_MOUSE_BUTTON_MASK_RIGHT, SPICE_MOUSE_BUTTON_MASK_SIDE,
    SPICE_MOUSE_BUTTON_MIDDLE, SPICE_MOUSE_BUTTON_RIGHT, SPICE_MOUSE_BUTTON_SIDE,
    SPICE_MOUSE_BUTTON_UP, VD_AGENT_CLIPBOARD_IMAGE_PNG, VD_AGENT_CLIPBOARD_UTF8_TEXT,
};
use vmlaunch::spice::{
    button_to_mask, disconnect, key_press, key_release, mouse_button_press, mouse_button_release,
    mouse_position, mouse_scroll, on_channel_new, on_display_primary_create,
    on_display_primary_destroy, release_all_keys, send_ctrl_alt_del, set_display_size,
    ChannelAction, Framebuffer, KeyAction, SpiceState, Teardown,
};

fn connected() -> SpiceState {
    let mut state = without_inputs();
    on_channel_new(&mut state, SPICE_CHANNEL_MAIN);
    on_channel_new(&mut state, SPICE_CHANNEL_INPUTS);
    state
}

fn without_inputs() -> SpiceState {
    let mut state = SpiceState::new();
    state.open_session();
    state
}

/// Pinned to the literal values the SPICE protocol defines, not to the
/// other constants.
#[test]
fn masks_match_the_spice_protocol_values() {
    assert_eq!(button_to_mask(SPICE_MOUSE_BUTTON_LEFT), 0x1);
    assert_eq!(button_to_mask(SPICE_MOUSE_BUTTON_MIDDLE), 0x2);
    assert_eq!(button_to_mask(SPICE_MOUSE_BUTTON_RIGHT), 0x4);
    assert_eq!(button_to_mask(SPICE_MOUSE_BUTTON_SIDE), 0x20);
    assert_eq!(button_to_mask(SPICE_MOUSE_BUTTON_EXTRA), 0x40);
}

/// The button numbers are protocol constants too.
#[test]
fn button_numbers_match_the_spice_protocol_values() {
    assert_eq!(SPICE_MOUSE_BUTTON_LEFT, 1);
    assert_eq!(SPICE_MOUSE_BUTTON_MIDDLE, 2);
    assert_eq!(SPICE_MOUSE_BUTTON_RIGHT, 3);
    assert_eq!(SPICE_MOUSE_BUTTON_UP, 4);
    assert_eq!(SPICE_MOUSE_BUTTON_DOWN, 5);
    assert_eq!(SPICE_MOUSE_BUTTON_SIDE, 6);
    assert_eq!(SPICE_MOUSE_BUTTON_EXTRA, 7);
}

/// Scroll wheel "buttons" are momentary events, not held state.
#[test]
fn scroll_buttons_contribute_no_mask_bits() {
    assert_eq!(button_to_mask(SPICE_MOUSE_BUTTON_UP), 0);
    assert_eq!(button_to_mask(SPICE_MOUSE_BUTTON_DOWN), 0);
}

#[test]
fn unknown_buttons_contribute_no_mask_bits() {
    assert_eq!(button_to_mask(0), 0);
    assert_eq!(button_to_mask(8), 0);
    assert_eq!(button_to_mask(-1), 0);
}

/// Every button mask must be a distinct single bit.
#[test]
fn masks_are_distinct_single_bits() {
    let masks = [
        SPICE_MOUSE_BUTTON_MASK_LEFT,
        SPICE_MOUSE_BUTTON_MASK_MIDDLE,
        SPICE_MOUSE_BUTTON_MASK_RIGHT,
        SPICE_MOUSE_BUTTON_MASK_SIDE,
        SPICE_MOUSE_BUTTON_MASK_EXTRA,
    ];
    for mask in masks {
        assert_eq!(mask.count_ones(), 1, "{mask:#b} is not a single bit");
    }
    for (i, a) in masks.iter().enumerate() {
        for b in &masks[i + 1..] {
            assert_eq!(a & b, 0, "{a:#b} overlaps {b:#b}");
        }
    }
}

/// Press then release of the same button must return the mask to its
/// starting value, and interleaved buttons must not disturb each other.
#[test]
fn press_release_sequences_restore_the_mask() {
    let mut mask: u32 = 0;
    for button in [SPICE_MOUSE_BUTTON_LEFT, SPICE_MOUSE_BUTTON_RIGHT] {
        mask |= button_to_mask(button);
    }
    assert_eq!(mask.count_ones(), 2);

    mask &= !button_to_mask(SPICE_MOUSE_BUTTON_LEFT);
    assert_eq!(mask, SPICE_MOUSE_BUTTON_MASK_RIGHT);

    mask &= !button_to_mask(SPICE_MOUSE_BUTTON_RIGHT);
    assert_eq!(mask, 0);
}

#[test]
fn session_buttons_track_the_mask() {
    let mut state = connected();
    assert_eq!(mouse_button_press(&mut state, SPICE_MOUSE_BUTTON_LEFT), Some(0x1));
    assert_eq!(mouse_button_press(&mut state, SPICE_MOUSE_BUTTON_SIDE), Some(0x21));
    assert_eq!(mouse_position(&state, 10, 20), Some((10, 20, 0x21)));
    assert_eq!(mouse_scroll(&state, true), Some((SPICE_MOUSE_BUTTON_UP, 0x21)));
    assert_eq!(mouse_scroll(&state, false), Some((SPICE_MOUSE_BUTTON_DOWN, 0x21)));
    assert_eq!(mouse_button_release(&mut state, SPICE_MOUSE_BUTTON_LEFT), Some(0x20));
    assert_eq!(mouse_button_release(&mut state, SPICE_MOUSE_BUTTON_SIDE), Some(0));
    assert_eq!(state.mouse_button_state(), 0);
}

#[test]
fn mouse_events_need_an_inputs_channel() {
    let mut state = without_inputs();
    assert_eq!(mouse_button_press(&mut state, SPICE_MOUSE_BUTTON_LEFT), None);
    assert_eq!(state.mouse_button_state(), 0);
    assert_eq!(mouse_button_release(&mut state, SPICE_MOUSE_BUTTON_LEFT), None);
    assert_eq!(mouse_position(&state, 1, 2), None);
    assert_eq!(mouse_scroll(&state, true), None);
}

#[test]
fn key_press_and_release_track_held_keys() {
    let mut state = connected();
    assert_eq!(key_press(&mut state, 64), Some(XT_LEFT_ALT));
    assert_eq!(key_press(&mut state, 119), Some(XT_DELETE));
    assert!(state.is_key_held(XT_LEFT_ALT));
    assert_eq!(key_release(&mut state, 119), Some(XT_DELETE));
    assert!(!state.is_key_held(XT_DELETE));
    assert_eq!(state.held_key_count(), 1);
    // A key without a scancode is left to the host.
    assert_eq!(key_press(&mut state, 8 + 90), None);
    assert_eq!(key_release(&mut state, 3), None);
    assert_eq!(state.held_key_count(), 1);
}

#[test]
fn keys_need_an_inputs_channel() {
    let mut state = without_inputs();
    assert_eq!(key_press(&mut state, 38), None);
    assert_eq!(key_release(&mut state, 38), None);
    assert_eq!(state.held_key_count(), 0);
}

#[test]
fn release_all_keys_releases_each_held_key_once() {
    let mut state = connected();
    key_press(&mut state, 37);
    key_press(&mut state, 64);
    key_press(&mut state, 64);
    let mut released = release_all_keys(&mut state);
    released.sort();
    assert_eq!(released, vec![XT_LEFT_CTRL, XT_LEFT_ALT]);
    assert_eq!(state.held_key_count(), 0);
    assert!(release_all_keys(&mut state).is_empty());
}

#[test]
fn release_all_keys_without_inputs_sends_nothing() {
    let mut state = without_inputs();
    assert_eq!(key_press(&mut state, 38), None);
    assert!(release_all_keys(&mut state).is_empty());
    assert_eq!(state.held_key_count(), 0);
}

#[test]
fn ctrl_alt_del_is_a_nested_chord() {
    let state = connected();
    assert_eq!(
        send_ctrl_alt_del(&state),
        vec![
            KeyAction::Press(XT_LEFT_CTRL),
            KeyAction::Press(XT_LEFT_ALT),
            KeyAction::PressAndRelease(XT_DELETE),
            KeyAction::Release(XT_LEFT_ALT),
            KeyAction::Release(XT_LEFT_CTRL),
        ]
    );
    assert!(send_ctrl_alt_del(&without_inputs()).is_empty());
}

#[test]
fn display_size_requests_need_a_main_channel_and_positive_size() {
    let state = connected();
    assert!(set_display_size(&state, 1920, 1080));
    assert!(!set_display_size(&state, 0, 1080));
    assert!(!set_display_size(&state, 1920, -1));
    assert!(!set_display_size(&without_inputs(), 1920, 1080));
}

#[test]
fn channels_are_recorded_and_dispatched() {
    let mut state = without_inputs();
    assert_eq!(on_channel_new(&mut state, SPICE_CHANNEL_MAIN), ChannelAction::StoreMain);
    assert!(state.main_channel_ready());
    assert!(!state.inputs_channel_ready());
    assert_eq!(on_channel_new(&mut state, SPICE_CHANNEL_DISPLAY), ChannelAction::ConnectDisplay);
    assert_eq!(on_channel_new(&mut state, SPICE_CHANNEL_CURSOR), ChannelAction::ConnectCursor);
    assert_eq!(on_channel_new(&mut state, SPICE_CHANNEL_PLAYBACK), ChannelAction::Ignore);
    assert!(!state.inputs_channel_ready());
    assert_eq!(on_channel_new(&mut state, SPICE_CHANNEL_INPUTS), ChannelAction::StoreInputs);
    assert!(state.inputs_channel_ready());
}

#[test]
fn primary_surface_comes_and_goes() {
    let mut state = connected();
    on_display_primary_create(&mut state, 800, 600, 3200);
    let fb = state.framebuffer().expect("framebuffer after create");
    assert_eq!((fb.width, fb.height, fb.stride), (800, 600, 3200));
    on_display_primary_destroy(&mut state);
    assert!(state.framebuffer().is_none());
}

#[test]
fn disconnect_tears_everything_down() {
    let mut state = connected();
    state.attach_clipboard();
    assert!(state.clipboard_attached());
    on_display_primary_create(&mut state, 1, 1, 4);
    key_press(&mut state, 38);
    let teardown = disconnect(&mut state);
    assert_eq!(teardown, Teardown { detach_clipboard: true, close_session: true });
    assert!(!state.session_open() && !state.inputs_channel_ready() && !state.clipboard_attached());
    assert!(state.main_channel_ready(), "the main channel is kept");
    assert_eq!(state.held_key_count(), 0);
    assert!(state.framebuffer().is_none());
    let again = disconnect(&mut state);
    assert_eq!(again, Teardown { detach_clipboard: false, close_session: false });
}

#[test]
fn framebuffer_byte_len_is_stride_times_height() {
    assert_eq!(Framebuffer { width: 800, height: 600, stride: 3200 }.byte_len(), 1_920_000);
    assert_eq!(Framebuffer { width: 0, height: 0, stride: 0 }.byte_len(), 0);
    assert_eq!(Framebuffer { width: 1, height: 2, stride: -1 }.byte_len(), usize::MAX);
}

#[test]
fn clipboard_offers_are_checked_for_text() {
    assert!(offers_utf8_text(&[VD_AGENT_CLIPBOARD_IMAGE_PNG, VD_AGENT_CLIPBOARD_UTF8_TEXT]));
    assert!(!offers_utf8_text(&[VD_AGENT_CLIPBOARD_IMAGE_PNG]));
    assert!(!offers_utf8_text(&[]));
}

#[test]
fn guest_text_reaches_the_host_without_echo() {
    let mut bridge = ClipboardBridge::new();
    assert!(bridge.on_host_change());
    let text = bridge.on_guest_data(VD_AGENT_CLIPBOARD_UTF8_TEXT, "héllo\0\0".as_bytes());
    assert_eq!(text.as_deref(), Some("héllo"));
    assert!(!bridge.on_host_change(), "our own change is not echoed");
    assert!(bridge.on_host_change());
}

#[test]
fn guest_data_that_is_not_text_is_ignored() {
    assert!(serves_request(VD_AGENT_CLIPBOARD_UTF8_TEXT));
    assert!(!serves_request(VD_AGENT_CLIPBOARD_IMAGE_PNG));
    let mut bridge = ClipboardBridge::new();
    assert_eq!(bridge.on_guest_data(VD_AGENT_CLIPBOARD_IMAGE_PNG, b"abc"), None);
    assert_eq!(bridge.on_guest_data(VD_AGENT_CLIPBOARD_UTF8_TEXT, b""), None);
    assert_eq!(bridge.on_guest_data(VD_AGENT_CLIPBOARD_UTF8_TEXT, b"\0\0"), None);
    assert_eq!(bridge.on_guest_data(VD_AGENT_CLIPBOARD_UTF8_TEXT, &[0xC3, 0x28]), None);
    assert!(bridge.on_host_change(), "nothing was set, so nothing is suppressed");
}

#[test]
fn a_new_session_has_nothing_open() {
    let state = SpiceState::new();
    assert!(!state.session_open() && !state.main_channel_ready() && !state.inputs_channel_ready());
    assert!(state.framebuffer().is_none() && !state.clipboard_attached());
    assert_eq!((state.mouse_button_state(), state.held_key_count()), (0, 0));
}
