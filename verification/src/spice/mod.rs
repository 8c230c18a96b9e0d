//! SPICE client model: the state of a session as the input forwarding and
//! the display see it, and the decisions taken on each input event.
//!
//! The session's channels live in the SPICE library; here each is present or
//! absent, and every operation says which protocol messages to send.

pub mod clipboard;
pub mod keymap;
pub mod protocol;

use std::collections::HashSet;

use vstd::prelude::*;

use crate::spice::keymap::{
    gtk_keycode_to_xt, spec_gtk_keycode_to_xt, XT_DELETE, XT_LEFT_ALT, XT_LEFT_CTRL,
};
use crate::spice::protocol::{
    SPICE_CHANNEL_CURSOR, SPICE_CHANNEL_DISPLAY, SPICE_CHANNEL_INPUTS, SPICE_CHANNEL_MAIN,
    SPICE_MOUSE_BUTTON_DOWN, SPICE_MOUSE_BUTTON_EXTRA, SPICE_MOUSE_BUTTON_LEFT,
    SPICE_MOUSE_BUTTON_MASK_EXTRA, SPICE_MOUSE_BUTTON_MASK_LEFT, SPICE_MOUSE_BUTTON_MASK_MIDDLE,
    SPICE_MOUSE_BUTTON_MASK_RIGHT, SPICE_MOUSE_BUTTON_MASK_SIDE, SPICE_MOUSE_BUTTON_MIDDLE,
    SPICE_MOUSE_BUTTON_RIGHT, SPICE_MOUSE_BUTTON_SIDE, SPICE_MOUSE_BUTTON_UP,
};

verus! {

broadcast use vstd::std_specs::hash::group_hash_axioms;

/// Geometry of the framebuffer received from the SPICE display channel.
/// The pixels themselves belong to the SPICE library.
#[derive(Clone, Copy, Debug)]
pub struct Framebuffer {
    pub width: i32,
    pub height: i32,
    pub stride: i32,
}

/// The length in bytes of a buffer of `height` rows of `stride` bytes, each
/// taken as a `usize` (a negative value wraps), saturating at `usize::MAX`.
pub open spec fn spec_byte_len(fb: Framebuffer) -> usize {
    let product = (fb.stride as usize) * (fb.height as usize);
    if product > usize::MAX {
        usize::MAX
    } else {
        product as usize
    }
}

/// A framebuffer of non-negative geometry holds `height` rows of `stride`
/// bytes: its length is their product, capped at the largest `usize`.
pub proof fn lemma_byte_len_is_rows_times_stride(fb: Framebuffer)
    requires
        fb.stride >= 0,
        fb.height >= 0,
    ensures
        spec_byte_len(fb) as int == (if fb.stride * fb.height > usize::MAX {
            usize::MAX as int
        } else {
            fb.stride * fb.height
        }),
{
}

impl Framebuffer {
    /// Total length of the pixel buffer in bytes.
    pub fn byte_len(&self) -> (len: usize)
        ensures
            len == spec_byte_len(*self),
            self.stride >= 0 && self.height >= 0 ==> len as int == (if self.stride * self.height
                > usize::MAX {
                usize::MAX as int
            } else {
                self.stride * self.height
            }),
    {
        match (self.stride as usize).checked_mul(self.height as usize) {
            Some(len) => len,
            None => usize::MAX,
        }
    }
}

/// The state of a SPICE session. The fields change only through the
/// transitions below, each of which says what it changes.
pub struct SpiceState {
    /// A session object exists.
    session_open: bool,
    /// The main channel has been announced.
    main_channel_ready: bool,
    /// The inputs channel has been announced.
    inputs_channel_ready: bool,
    /// The primary display surface, while it exists.
    framebuffer: Option<Framebuffer>,
    /// Mask of the mouse buttons held down, as the SPICE protocol encodes it.
    mouse_button_state: u32,
    /// XT scancodes currently held down, so they can be released if the window
    /// loses focus mid-keypress. GTK4 does not synthesize releases on focus-out,
    /// so without this an Alt+Tab away leaves Alt stuck down inside the guest.
    held_keys: HashSet<u32>,
    /// The host clipboard is bridged to this session.
    clipboard_attached: bool,
}

impl SpiceState {
    pub closed spec fn spec_session_open(&self) -> bool {
        self.session_open
    }

    pub closed spec fn spec_main_channel_ready(&self) -> bool {
        self.main_channel_ready
    }

    pub closed spec fn spec_inputs_channel_ready(&self) -> bool {
        self.inputs_channel_ready
    }

    pub closed spec fn spec_framebuffer(&self) -> Option<Framebuffer> {
        self.framebuffer
    }

    pub closed spec fn spec_mouse_button_state(&self) -> u32 {
        self.mouse_button_state
    }

    pub closed spec fn spec_clipboard_attached(&self) -> bool {
        self.clipboard_attached
    }

    /// The XT scancodes held down.
    pub closed spec fn held_keys(&self) -> Set<u32> {
        self.held_keys@
    }

    /// A session that has not been opened yet: no channels, no framebuffer,
    /// no buttons or keys held, no clipboard.
    pub fn new() -> (state: SpiceState)
        ensures
            !state.session_open(),
            !state.main_channel_ready(),
            !state.inputs_channel_ready(),
            state.framebuffer() is None,
            state.mouse_button_state() == 0,
            state.held_keys() == Set::<u32>::empty(),
            !state.clipboard_attached(),
    {
        SpiceState {
            session_open: false,
            main_channel_ready: false,
            inputs_channel_ready: false,
            framebuffer: None,
            mouse_button_state: 0,
            held_keys: HashSet::new(),
            clipboard_attached: false,
        }
    }

    /// The session object was created.
    pub fn open_session(&mut self)
        ensures
            final(self).session_open(),
            final(self).main_channel_ready() == old(self).main_channel_ready(),
            final(self).inputs_channel_ready() == old(self).inputs_channel_ready(),
            final(self).framebuffer() == old(self).framebuffer(),
            final(self).mouse_button_state() == old(self).mouse_button_state(),
            final(self).held_keys() == old(self).held_keys(),
            final(self).clipboard_attached() == old(self).clipboard_attached(),
    {
        self.session_open = true;
    }

    /// The host clipboard was bridged to the session.
    pub fn attach_clipboard(&mut self)
        ensures
            final(self).clipboard_attached(),
            final(self).session_open() == old(self).session_open(),
            final(self).main_channel_ready() == old(self).main_channel_ready(),
            final(self).inputs_channel_ready() == old(self).inputs_channel_ready(),
            final(self).framebuffer() == old(self).framebuffer(),
            final(self).mouse_button_state() == old(self).mouse_button_state(),
            final(self).held_keys() == old(self).held_keys(),
    {
        self.clipboard_attached = true;
    }

    /// A session object exists.
    #[verifier::when_used_as_spec(spec_session_open)]
    pub fn session_open(&self) -> (open: bool)
        ensures
            open == self.spec_session_open(),
    {
        self.session_open
    }

    /// The main channel has been announced.
    #[verifier::when_used_as_spec(spec_main_channel_ready)]
    pub fn main_channel_ready(&self) -> (ready: bool)
        ensures
            ready == self.spec_main_channel_ready(),
    {
        self.main_channel_ready
    }

    /// The inputs channel has been announced.
    #[verifier::when_used_as_spec(spec_inputs_channel_ready)]
    pub fn inputs_channel_ready(&self) -> (ready: bool)
        ensures
            ready == self.spec_inputs_channel_ready(),
    {
        self.inputs_channel_ready
    }

    /// The geometry of the primary surface, while it exists.
    #[verifier::when_used_as_spec(spec_framebuffer)]
    pub fn framebuffer(&self) -> (framebuffer: Option<Framebuffer>)
        ensures
            framebuffer == self.spec_framebuffer(),
    {
        self.framebuffer
    }

    /// The mask of the mouse buttons held down.
    #[verifier::when_used_as_spec(spec_mouse_button_state)]
    pub fn mouse_button_state(&self) -> (mask: u32)
        ensures
            mask == self.spec_mouse_button_state(),
    {
        self.mouse_button_state
    }

    /// The host clipboard is bridged to this session.
    #[verifier::when_used_as_spec(spec_clipboard_attached)]
    pub fn clipboard_attached(&self) -> (attached: bool)
        ensures
            attached == self.spec_clipboard_attached(),
    {
        self.clipboard_attached
    }

    /// Whether `scancode` is held down.
    pub fn is_key_held(&self, scancode: u32) -> (held: bool)
        ensures
            held == self.held_keys().contains(scancode),
    {
        self.held_keys.contains(&scancode)
    }

    /// How many keys are held down.
    pub fn held_key_count(&self) -> (count: usize)
        ensures
            count == self.held_keys().len(),
    {
        self.held_keys.len()
    }
}

/// A keyboard message for the inputs channel.
#[derive(Debug, Clone, Copy, PartialEq, Eq, Structural)]
pub enum KeyAction {
    Press(u32),
    Release(u32),
    PressAndRelease(u32),
}

/// What to do with a newly announced channel.
#[derive(Debug, Clone, Copy, PartialEq, Eq, Structural)]
pub enum ChannelAction {
    /// Keep the main channel and enable its display without dimensions.
    StoreMain,
    /// Watch the display channel's surface signals and connect it.
    ConnectDisplay,
    /// Keep the inputs channel and connect it.
    StoreInputs,
    /// Connect the cursor channel.
    ConnectCursor,
    /// Leave the channel alone.
    Ignore,
}

/// What tearing a session down involves.
#[derive(Debug, Clone, Copy, PartialEq, Eq, Structural)]
pub struct Teardown {
    /// Detach the host clipboard first: it outlives the session.
    pub detach_clipboard: bool,
    /// Disconnect and release the session object.
    pub close_session: bool,
}

/// The bit that `button` contributes to the button mask: the protocol's
/// value for the five held buttons, nothing for the scroll buttons or any
/// other number.
pub open spec fn spec_button_to_mask(button: i32) -> u32 {
    if button == SPICE_MOUSE_BUTTON_LEFT {
        SPICE_MOUSE_BUTTON_MASK_LEFT
    } else if button == SPICE_MOUSE_BUTTON_MIDDLE {
        SPICE_MOUSE_BUTTON_MASK_MIDDLE
    } else if button == SPICE_MOUSE_BUTTON_RIGHT {
        SPICE_MOUSE_BUTTON_MASK_RIGHT
    } else if button == SPICE_MOUSE_BUTTON_SIDE {
        SPICE_MOUSE_BUTTON_MASK_SIDE
    } else if button == SPICE_MOUSE_BUTTON_EXTRA {
        SPICE_MOUSE_BUTTON_MASK_EXTRA
    } else {
        0
    }
}

/// The buttons that can be held down: left, middle, right, side and extra
/// (the wheel's up and down are clicks, never held).
pub open spec fn is_held_button(button: i32) -> bool {
    button == 1 || button == 2 || button == 3 || button == 6 || button == 7
}

/// The protocol numbers its mask bits after its buttons: a held button `b`
/// owns bit `b - 1`, and no other number owns any.
pub proof fn lemma_mask_bit_is_button_number(button: i32)
    ensures
        is_held_button(button) ==> spec_button_to_mask(button) == 1u32 << ((button - 1) as u32),
        !is_held_button(button) ==> spec_button_to_mask(button) == 0,
{
    assert(1u32 << 0u32 == 1u32) by (bit_vector);
    assert(1u32 << 1u32 == 2u32) by (bit_vector);
    assert(1u32 << 2u32 == 4u32) by (bit_vector);
    assert(1u32 << 5u32 == 32u32) by (bit_vector);
    assert(1u32 << 6u32 == 64u32) by (bit_vector);
}

/// The mask bit of a mouse button.
pub fn button_to_mask(button: i32) -> (mask: u32)
    ensures
        mask == spec_button_to_mask(button),
        is_held_button(button) ==> mask == 1u32 << ((button - 1) as u32),
        !is_held_button(button) ==> mask == 0,
{
    proof {
        lemma_mask_bit_is_button_number(button);
    }
    if button == SPICE_MOUSE_BUTTON_LEFT {
        SPICE_MOUSE_BUTTON_MASK_LEFT
    } else if button == SPICE_MOUSE_BUTTON_MIDDLE {
        SPICE_MOUSE_BUTTON_MASK_MIDDLE
    } else if button == SPICE_MOUSE_BUTTON_RIGHT {
        SPICE_MOUSE_BUTTON_MASK_RIGHT
    } else if button == SPICE_MOUSE_BUTTON_SIDE {
        SPICE_MOUSE_BUTTON_MASK_SIDE
    } else if button == SPICE_MOUSE_BUTTON_EXTRA {
        SPICE_MOUSE_BUTTON_MASK_EXTRA
    } else {
        0
    }
}

/// What a newly announced channel of type `channel_type` calls for.
pub open spec fn spec_channel_action(channel_type: i32) -> ChannelAction {
    if channel_type == SPICE_CHANNEL_MAIN {
        ChannelAction::StoreMain
    } else if channel_type == SPICE_CHANNEL_DISPLAY {
        ChannelAction::ConnectDisplay
    } else if channel_type == SPICE_CHANNEL_INPUTS {
        ChannelAction::StoreInputs
    } else if channel_type == SPICE_CHANNEL_CURSOR {
        ChannelAction::ConnectCursor
    } else {
        ChannelAction::Ignore
    }
}

/// Each channel type is dispatched to its own action: main (1), display (2),
/// inputs (3) and cursor (4) each have one, and every other type, audio
/// playback and record among them, is left alone.
pub proof fn lemma_channel_dispatch(channel_type: i32)
    ensures
        spec_channel_action(channel_type) == ChannelAction::StoreMain <==> channel_type == 1,
        spec_channel_action(channel_type) == ChannelAction::ConnectDisplay <==> channel_type == 2,
        spec_channel_action(channel_type) == ChannelAction::StoreInputs <==> channel_type == 3,
        spec_channel_action(channel_type) == ChannelAction::ConnectCursor <==> channel_type == 4,
        spec_channel_action(channel_type) == ChannelAction::Ignore <==> !(1 <= channel_type <= 4),
{
}

/// A channel of type `channel_type` was announced: the main and inputs
/// channels are recorded as present, and the result says what to do with it.
pub fn on_channel_new(state: &mut SpiceState, channel_type: i32) -> (action: ChannelAction)
    ensures
        action == spec_channel_action(channel_type),
        action == ChannelAction::StoreMain <==> channel_type == SPICE_CHANNEL_MAIN,
        action == ChannelAction::ConnectDisplay <==> channel_type == SPICE_CHANNEL_DISPLAY,
        action == ChannelAction::StoreInputs <==> channel_type == SPICE_CHANNEL_INPUTS,
        action == ChannelAction::ConnectCursor <==> channel_type == SPICE_CHANNEL_CURSOR,
        !(1 <= channel_type <= 4) ==> action == ChannelAction::Ignore,
        final(state).main_channel_ready() == (old(state).main_channel_ready() || channel_type
            == SPICE_CHANNEL_MAIN),
        final(state).inputs_channel_ready() == (old(state).inputs_channel_ready() || channel_type
            == SPICE_CHANNEL_INPUTS),
        final(state).session_open() == old(state).session_open(),
        final(state).framebuffer() == old(state).framebuffer(),
        final(state).mouse_button_state() == old(state).mouse_button_state(),
        final(state).held_keys() == old(state).held_keys(),
        final(state).clipboard_attached() == old(state).clipboard_attached(),
{
    if channel_type == SPICE_CHANNEL_MAIN {
        state.main_channel_ready = true;
        ChannelAction::StoreMain
    } else if channel_type == SPICE_CHANNEL_DISPLAY {
        ChannelAction::ConnectDisplay
    } else if channel_type == SPICE_CHANNEL_INPUTS {
        state.inputs_channel_ready = true;
        ChannelAction::StoreInputs
    } else if channel_type == SPICE_CHANNEL_CURSOR {
        ChannelAction::ConnectCursor
    } else {
        ChannelAction::Ignore
    }
}

/// The primary surface was created with this geometry.
pub fn on_display_primary_create(state: &mut SpiceState, width: i32, height: i32, stride: i32)
    ensures
        final(state).framebuffer() == Some(Framebuffer { width, height, stride }),
        final(state).session_open() == old(state).session_open(),
        final(state).main_channel_ready() == old(state).main_channel_ready(),
        final(state).inputs_channel_ready() == old(state).inputs_channel_ready(),
        final(state).mouse_button_state() == old(state).mouse_button_state(),
        final(state).held_keys() == old(state).held_keys(),
        final(state).clipboard_attached() == old(state).clipboard_attached(),
{
    state.framebuffer = Some(Framebuffer { width, height, stride });
}

/// The SPICE library is about to free the primary surface: the framebuffer
/// is dropped before it dangles, and renderers treat `None` as "nothing to
/// draw".
pub fn on_display_primary_destroy(state: &mut SpiceState)
    ensures
        final(state).framebuffer() is None,
        final(state).session_open() == old(state).session_open(),
        final(state).main_channel_ready() == old(state).main_channel_ready(),
        final(state).inputs_channel_ready() == old(state).inputs_channel_ready(),
        final(state).mouse_button_state() == old(state).mouse_button_state(),
        final(state).held_keys() == old(state).held_keys(),
        final(state).clipboard_attached() == old(state).clipboard_attached(),
{
    state.framebuffer = None;
}

/// Disconnect the session: the clipboard is detached (when attached), the
/// held keys are forgotten, the session is closed (when open), and the
/// inputs channel and the framebuffer are gone.
pub fn disconnect(state: &mut SpiceState) -> (teardown: Teardown)
    ensures
        teardown == (Teardown {
            detach_clipboard: old(state).clipboard_attached(),
            close_session: old(state).session_open(),
        }),
        !final(state).clipboard_attached(),
        final(state).held_keys() == Set::<u32>::empty(),
        !final(state).session_open(),
        !final(state).inputs_channel_ready(),
        final(state).framebuffer() is None,
        final(state).main_channel_ready() == old(state).main_channel_ready(),
        final(state).mouse_button_state() == old(state).mouse_button_state(),
{
    let teardown = Teardown {
        detach_clipboard: state.clipboard_attached,
        close_session: state.session_open,
    };
    state.clipboard_attached = false;
    state.held_keys.clear();
    state.session_open = false;
    state.inputs_channel_ready = false;
    state.framebuffer = None;
    teardown
}

/// Whether to ask the guest to switch its display to `width` x `height`:
/// only with a main channel and positive dimensions. Where the guest lacks
/// the agent or a resizable display driver the request is silently ignored.
pub fn set_display_size(state: &SpiceState, width: i32, height: i32) -> (send: bool)
    ensures
        send == (state.main_channel_ready() && width > 0 && height > 0),
{
    state.main_channel_ready && width > 0 && height > 0
}

/// The messages that send Ctrl+Alt+Del to the VM: press Ctrl, press Alt,
/// tap Delete, release Alt, release Ctrl; nothing without an inputs channel.
pub fn send_ctrl_alt_del(state: &SpiceState) -> (actions: Vec<KeyAction>)
    ensures
        state.inputs_channel_ready() ==> actions@ == seq![
            KeyAction::Press(XT_LEFT_CTRL),
            KeyAction::Press(XT_LEFT_ALT),
            KeyAction::PressAndRelease(XT_DELETE),
            KeyAction::Release(XT_LEFT_ALT),
            KeyAction::Release(XT_LEFT_CTRL),
        ],
        !state.inputs_channel_ready() ==> actions@.len() == 0,
{
    let mut actions: Vec<KeyAction> = Vec::new();
    if !state.inputs_channel_ready {
        return actions;
    }
    actions.push(KeyAction::Press(XT_LEFT_CTRL));
    actions.push(KeyAction::Press(XT_LEFT_ALT));
    actions.push(KeyAction::PressAndRelease(XT_DELETE));
    actions.push(KeyAction::Release(XT_LEFT_ALT));
    actions.push(KeyAction::Release(XT_LEFT_CTRL));
    assert(actions@ =~= seq![
        KeyAction::Press(XT_LEFT_CTRL),
        KeyAction::Press(XT_LEFT_ALT),
        KeyAction::PressAndRelease(XT_DELETE),
        KeyAction::Release(XT_LEFT_ALT),
        KeyAction::Release(XT_LEFT_CTRL),
    ]);
    actions
}

/// A key press from GTK: the scancode to press, when there is an inputs
/// channel and the key has one; it is then recorded as held. `None` lets
/// the caller propagate the key to the host instead of swallowing it.
pub fn key_press(state: &mut SpiceState, hardware_keycode: u32) -> (press: Option<u32>)
    ensures
        ({
            let scancode = spec_gtk_keycode_to_xt(hardware_keycode);
            if old(state).inputs_channel_ready() && scancode != 0 {
                press == Some(scancode) && final(state).held_keys() == old(
                    state,
                ).held_keys().insert(scancode)
            } else {
                press is None && final(state).held_keys() == old(state).held_keys()
            }
        }),
        final(state).session_open() == old(state).session_open(),
        final(state).main_channel_ready() == old(state).main_channel_ready(),
        final(state).inputs_channel_ready() == old(state).inputs_channel_ready(),
        final(state).framebuffer() == old(state).framebuffer(),
        final(state).mouse_button_state() == old(state).mouse_button_state(),
        final(state).clipboard_attached() == old(state).clipboard_attached(),
{
    if !state.inputs_channel_ready {
        return None;
    }
    let scancode = gtk_keycode_to_xt(hardware_keycode);
    if scancode == 0 {
        return None;
    }
    state.held_keys.insert(scancode);
    Some(scancode)
}

/// A key release from GTK: the scancode to release, when there is an inputs
/// channel and the key has one; it is then no longer held.
pub fn key_release(state: &mut SpiceState, hardware_keycode: u32) -> (release: Option<u32>)
    ensures
        ({
            let scancode = spec_gtk_keycode_to_xt(hardware_keycode);
            if old(state).inputs_channel_ready() && scancode != 0 {
                release == Some(scancode) && final(state).held_keys() == old(
                    state,
                ).held_keys().remove(scancode)
            } else {
                release is None && final(state).held_keys() == old(state).held_keys()
            }
        }),
        final(state).session_open() == old(state).session_open(),
        final(state).main_channel_ready() == old(state).main_channel_ready(),
        final(state).inputs_channel_ready() == old(state).inputs_channel_ready(),
        final(state).framebuffer() == old(state).framebuffer(),
        final(state).mouse_button_state() == old(state).mouse_button_state(),
        final(state).clipboard_attached() == old(state).clipboard_attached(),
{
    if !state.inputs_channel_ready {
        return None;
    }
    let scancode = gtk_keycode_to_xt(hardware_keycode);
    if scancode == 0 {
        return None;
    }
    state.held_keys.remove(&scancode);
    Some(scancode)
}

/// Release every key the guest currently believes is held: the result holds
/// each held scancode once (in no particular order), to be released when
/// there is an inputs channel; either way nothing is held afterwards.
///
/// Call this whenever the window loses focus: the host compositor consumes
/// the key-up for whatever chord took focus away (Alt+Tab, Super), so the
/// guest would otherwise never see those keys come back up.
pub fn release_all_keys(state: &mut SpiceState) -> (released: Vec<u32>)
    ensures
        old(state).inputs_channel_ready() ==> released@.to_set() == old(state).held_keys()
            && released@.no_duplicates(),
        !old(state).inputs_channel_ready() ==> released@.len() == 0,
        final(state).held_keys() == Set::<u32>::empty(),
        final(state).session_open() == old(state).session_open(),
        final(state).main_channel_ready() == old(state).main_channel_ready(),
        final(state).inputs_channel_ready() == old(state).inputs_channel_ready(),
        final(state).framebuffer() == old(state).framebuffer(),
        final(state).mouse_button_state() == old(state).mouse_button_state(),
        final(state).clipboard_attached() == old(state).clipboard_attached(),
{
    let mut released: Vec<u32> = Vec::new();
    if !state.inputs_channel_ready {
        state.held_keys.clear();
        return released;
    }
    let ghost held = state.held_keys@;
    for key in it: state.held_keys.iter()
        invariant
            held == state.held_keys@,
            released@ == it.seq().take(it.index()).unref(),
            it.seq().unref().to_set() == held,
            it.seq().unref().no_duplicates(),
            it.index() == it.seq().len() ==> released@ == it.seq().unref(),
    {
        released.push(*key);
        assert(released@ =~= it.seq().take(it.index() + 1).unref());
    }
    state.held_keys.clear();
    released
}

/// A pointer motion to `(x, y)` in VM display coordinates: the position to
/// send on display channel 0 together with the current button mask, when
/// there is an inputs channel.
pub fn mouse_position(state: &SpiceState, x: i32, y: i32) -> (motion: Option<(i32, i32, u32)>)
    ensures
        motion == (if state.inputs_channel_ready() {
            Some((x, y, state.mouse_button_state()))
        } else {
            None
        }),
{
    if !state.inputs_channel_ready {
        return None;
    }
    Some((x, y, state.mouse_button_state))
}

/// A mouse button press: with an inputs channel, the button's bit joins the
/// mask, and the new mask is to be sent with the press.
pub fn mouse_button_press(state: &mut SpiceState, button: i32) -> (buttons: Option<u32>)
    ensures
        old(state).inputs_channel_ready() ==> final(state).mouse_button_state() == (old(
            state,
        ).mouse_button_state() | spec_button_to_mask(button)) && buttons == Some(
            final(state).mouse_button_state(),
        ),
        !old(state).inputs_channel_ready() ==> buttons is None && final(state).mouse_button_state()
            == old(state).mouse_button_state(),
        final(state).session_open() == old(state).session_open(),
        final(state).main_channel_ready() == old(state).main_channel_ready(),
        final(state).inputs_channel_ready() == old(state).inputs_channel_ready(),
        final(state).framebuffer() == old(state).framebuffer(),
        final(state).held_keys() == old(state).held_keys(),
        final(state).clipboard_attached() == old(state).clipboard_attached(),
{
    if !state.inputs_channel_ready {
        return None;
    }
    let mask = button_to_mask(button);
    state.mouse_button_state = state.mouse_button_state | mask;
    Some(state.mouse_button_state)
}

/// A mouse button release: with an inputs channel, the button's bit leaves
/// the mask, and the new mask is to be sent with the release.
pub fn mouse_button_release(state: &mut SpiceState, button: i32) -> (buttons: Option<u32>)
    ensures
        old(state).inputs_channel_ready() ==> final(state).mouse_button_state() == (old(
            state,
        ).mouse_button_state() & !spec_button_to_mask(button)) && buttons == Some(
            final(state).mouse_button_state(),
        ),
        !old(state).inputs_channel_ready() ==> buttons is None && final(state).mouse_button_state()
            == old(state).mouse_button_state(),
        final(state).session_open() == old(state).session_open(),
        final(state).main_channel_ready() == old(state).main_channel_ready(),
        final(state).inputs_channel_ready() == old(state).inputs_channel_ready(),
        final(state).framebuffer() == old(state).framebuffer(),
        final(state).held_keys() == old(state).held_keys(),
        final(state).clipboard_attached() == old(state).clipboard_attached(),
{
    if !state.inputs_channel_ready {
        return None;
    }
    let mask = button_to_mask(button);
    state.mouse_button_state = state.mouse_button_state & !mask;
    Some(state.mouse_button_state)
}

/// A scroll step: the wheel "button" (up or down) to press and release at
/// once, with the unchanged button mask, when there is an inputs channel.
pub fn mouse_scroll(state: &SpiceState, direction_up: bool) -> (click: Option<(i32, u32)>)
    ensures
        click == (if state.inputs_channel_ready() {
            Some(
                (
                    if direction_up {
                        SPICE_MOUSE_BUTTON_UP
                    } else {
                        SPICE_MOUSE_BUTTON_DOWN
                    },
                    state.mouse_button_state(),
                ),
            )
        } else {
            None
        }),
{
    if !state.inputs_channel_ready {
        return None;
    }
    let button = if direction_up {
        SPICE_MOUSE_BUTTON_UP
    } else {
        SPICE_MOUSE_BUTTON_DOWN
    };
    Some((button, state.mouse_button_state))
}

/// Every button contributes at most one bit to the mask, and two different
/// buttons never share a bit — otherwise releasing one would clear the
/// other's state and the guest would see a stuck button.
pub proof fn lemma_button_masks_are_distinct_bits(a: i32, b: i32)
    ensures
        spec_button_to_mask(a) != 0 ==> spec_button_to_mask(a) & ((spec_button_to_mask(a) - 1) as u32)
            == 0,
        spec_button_to_mask(a) != spec_button_to_mask(b) ==> spec_button_to_mask(a)
            & spec_button_to_mask(b) == 0,
{
    let ma = spec_button_to_mask(a);
    let mb = spec_button_to_mask(b);
    assert(ma != 0 ==> ma & ((ma - 1) as u32) == 0) by (bit_vector)
        requires
            ma == 0 || ma == 1 || ma == 2 || ma == 4 || ma == 32 || ma == 64,
    ;
    assert(ma != mb ==> ma & mb == 0) by (bit_vector)
        requires
            ma == 0 || ma == 1 || ma == 2 || ma == 4 || ma == 32 || ma == 64,
            mb == 0 || mb == 1 || mb == 2 || mb == 4 || mb == 32 || mb == 64,
    ;
}

/// Different buttons have different bits (the scroll buttons and unknown
/// numbers have none).
pub proof fn lemma_distinct_buttons_distinct_masks(a: i32, b: i32)
    requires
        a != b,
        spec_button_to_mask(a) != 0,
    ensures
        spec_button_to_mask(a) != spec_button_to_mask(b),
{
}

/// Pressing and then releasing a button that was not held returns the mask
/// to where it started.
pub proof fn lemma_press_release_restores_mask(mask: u32, button: i32)
    requires
        mask & spec_button_to_mask(button) == 0,
    ensures
        (mask | spec_button_to_mask(button)) & !spec_button_to_mask(button) == mask,
{
    let m = spec_button_to_mask(button);
    assert((mask & m) == 0 ==> ((mask | m) & !m) == mask) by (bit_vector);
}

/// Pressing or releasing one button leaves every other button's bit as it
/// was, so interleaved buttons do not disturb each other.
pub proof fn lemma_other_buttons_undisturbed(mask: u32, button: i32, other: i32)
    requires
        button != other,
    ensures
        ((mask | spec_button_to_mask(button)) & spec_button_to_mask(other)) == (mask
            & spec_button_to_mask(other)),
        ((mask & !spec_button_to_mask(button)) & spec_button_to_mask(other)) == (mask
            & spec_button_to_mask(other)),
{
    let m = spec_button_to_mask(button);
    let o = spec_button_to_mask(other);
    lemma_button_masks_are_distinct_bits(button, other);
    if m != 0 {
        lemma_distinct_buttons_distinct_masks(button, other);
    }
    assert(m & o == 0 ==> ((mask | m) & o) == (mask & o)) by (bit_vector);
    assert(m & o == 0 ==> ((mask & !m) & o) == (mask & o)) by (bit_vector);
    assert(m == 0 ==> ((mask & !m) & o) == (mask & o)) by (bit_vector);
    assert(m == 0 ==> ((mask | m) & o) == (mask & o)) by (bit_vector);
}

/// Pressing and releasing a key that was not held leaves the held set as it
/// was: a tapped key never stays stuck in the guest.
pub proof fn lemma_key_tap_leaves_nothing_held(held: Set<u32>, hardware_keycode: u32)
    requires
        !held.contains(spec_gtk_keycode_to_xt(hardware_keycode)),
    ensures
        held.insert(spec_gtk_keycode_to_xt(hardware_keycode)).remove(
            spec_gtk_keycode_to_xt(hardware_keycode),
        ) == held,
{
    assert(held.insert(spec_gtk_keycode_to_xt(hardware_keycode)).remove(
        spec_gtk_keycode_to_xt(hardware_keycode),
    ) =~= held);
}

} // verus!
