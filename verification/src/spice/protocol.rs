//! Constants of the SPICE protocol and of the SPICE guest agent.

use vstd::prelude::*;

verus! {

// Channel types.
pub const SPICE_CHANNEL_MAIN: i32 = 1;
pub const SPICE_CHANNEL_DISPLAY: i32 = 2;
pub const SPICE_CHANNEL_INPUTS: i32 = 3;
pub const SPICE_CHANNEL_CURSOR: i32 = 4;
pub const SPICE_CHANNEL_PLAYBACK: i32 = 5;

// Clipboard selections.
pub const VD_AGENT_CLIPBOARD_SELECTION_CLIPBOARD: u32 = 0;

// Clipboard data types.
pub const VD_AGENT_CLIPBOARD_NONE: u32 = 0;
pub const VD_AGENT_CLIPBOARD_UTF8_TEXT: u32 = 1;
pub const VD_AGENT_CLIPBOARD_IMAGE_PNG: u32 = 2;
pub const VD_AGENT_CLIPBOARD_IMAGE_BMP: u32 = 3;

// Mouse buttons.
pub const SPICE_MOUSE_BUTTON_LEFT: i32 = 1;
pub const SPICE_MOUSE_BUTTON_MIDDLE: i32 = 2;
pub const SPICE_MOUSE_BUTTON_RIGHT: i32 = 3;
pub const SPICE_MOUSE_BUTTON_UP: i32 = 4;
pub const SPICE_MOUSE_BUTTON_DOWN: i32 = 5;
pub const SPICE_MOUSE_BUTTON_SIDE: i32 = 6;
pub const SPICE_MOUSE_BUTTON_EXTRA: i32 = 7;

// Mouse button state mask.
//
// These are NOT `1 << button`: `spice_inputs_channel_button_press` ORs 0x1 for
// LEFT, 0x2 for MIDDLE, 0x4 for RIGHT, 0x20 for SIDE and 0x40 for EXTRA, and
// the scroll buttons contribute nothing. Getting these wrong makes a left-drag
// arrive in the guest as a middle-drag, because
// `spice_inputs_channel_position` forwards this mask verbatim.
pub const SPICE_MOUSE_BUTTON_MASK_LEFT: u32 = 0x01;
pub const SPICE_MOUSE_BUTTON_MASK_MIDDLE: u32 = 0x02;
pub const SPICE_MOUSE_BUTTON_MASK_RIGHT: u32 = 0x04;
pub const SPICE_MOUSE_BUTTON_MASK_SIDE: u32 = 0x20;
pub const SPICE_MOUSE_BUTTON_MASK_EXTRA: u32 = 0x40;

} // verus!
