//! Evdev keycode → XT scancode (AT set 1) conversion.
//!
//! GTK4 hardware keycodes on Linux = evdev keycode + 8.
//! SPICE expects XT scancodes: regular keys are 1 byte,
//! extended keys use 0xE0 prefix in the high byte (e.g. 0xE053 for Delete).

use vstd::prelude::*;

verus! {

/// XT scancode of the left Ctrl key.
pub const XT_LEFT_CTRL: u32 = 0x1D;

/// XT scancode of the left Alt key.
pub const XT_LEFT_ALT: u32 = 0x38;

/// XT scancode of the Delete key (extended).
pub const XT_DELETE: u32 = 0xE053;

/// The XT scancode of an evdev keycode: the extended keys of the table carry
/// the 0xE0 prefix, evdev 1..=88 share their numbering with AT set 1, and
/// everything else is 0 ("not forwarded").
pub open spec fn spec_evdev_to_xt(evdev: u16) -> u32 {
    match evdev {
        96 => 0xE01C,  // KP Enter
        97 => 0xE01D,  // Right Ctrl
        98 => 0xE035,  // KP /
        99 => 0xE037,  // Print Screen
        100 => 0xE038,  // Right Alt
        102 => 0xE047,  // Home
        103 => 0xE048,  // Up
        104 => 0xE049,  // Page Up
        105 => 0xE04B,  // Left
        106 => 0xE04D,  // Right
        107 => 0xE04F,  // End
        108 => 0xE050,  // Down
        109 => 0xE051,  // Page Down
        110 => 0xE052,  // Insert
        111 => 0xE053,  // Delete
        119 => 0xE045,  // Pause
        125 => 0xE05B,  // Left Super
        126 => 0xE05C,  // Right Super
        127 => 0xE05D,  // Menu
        113 => 0xE020,  // Mute
        114 => 0xE02E,  // Volume Down
        115 => 0xE030,  // Volume Up
        116 => 0xE05E,  // Power
        163 => 0xE019,  // Next Track
        164 => 0xE022,  // Play/Pause
        165 => 0xE010,  // Previous Track
        166 => 0xE024,  // Stop
        _ => if evdev <= 88 {
            evdev as u32
        } else {
            0
        },
    }
}

/// The XT scancode of a GTK hardware keycode. GTK keycodes are the evdev
/// code plus 8: keycodes below 8 are not keys, and neither is any keycode
/// whose evdev code would not fit in 16 bits; both give 0 ("unknown").
pub open spec fn spec_gtk_keycode_to_xt(hardware_keycode: u32) -> u32 {
    if hardware_keycode < 8 || hardware_keycode - 8 > 0xFFFF {
        0
    } else {
        spec_evdev_to_xt((hardware_keycode - 8) as u16)
    }
}

/// An XT scancode is either a plain one-byte code of AT set 1 (at most F12,
/// 0x58) or an extended code whose high byte is the 0xE0 prefix.
pub open spec fn is_plain_or_extended(xt: u32) -> bool {
    xt <= 0x58 || (0xE000 <= xt && xt <= 0xE0FF)
}

/// Convert a GTK4 hardware keycode to an XT scancode for SPICE.
/// Returns 0 for unknown keys.
pub fn gtk_keycode_to_xt(hardware_keycode: u32) -> (xt: u32)
    ensures
        xt == spec_gtk_keycode_to_xt(hardware_keycode),
        is_plain_or_extended(xt),
        hardware_keycode < 8 ==> xt == 0,
        9 <= hardware_keycode <= 96 ==> xt == hardware_keycode - 8,
        hardware_keycode >= 136 && !(171 <= hardware_keycode <= 174) ==> xt == 0,
{
    if hardware_keycode < 8 || hardware_keycode - 8 > 0xFFFF {
        return 0;
    }
    let evdev = (hardware_keycode - 8) as u16;
    evdev_to_xt(evdev)
}

/// Convert an evdev keycode to an XT scancode.
pub fn evdev_to_xt(evdev: u16) -> (xt: u32)
    ensures
        xt == spec_evdev_to_xt(evdev),
        is_plain_or_extended(xt),
        1 <= evdev <= 88 ==> xt == evdev as u32,
        evdev == 0 || (89 <= evdev <= 95) ==> xt == 0,
        evdev >= 128 && !(163 <= evdev <= 166) ==> xt == 0,
        xt > 0xFF ==> xt >> 8u32 == 0xE0,
{
    // Extended keys that differ from the simple evdev == XT mapping.
    let xt: u32 = match evdev {
        96 => 0xE01C,
        97 => 0xE01D,
        98 => 0xE035,
        99 => 0xE037,
        100 => 0xE038,
        102 => 0xE047,
        103 => 0xE048,
        104 => 0xE049,
        105 => 0xE04B,
        106 => 0xE04D,
        107 => 0xE04F,
        108 => 0xE050,
        109 => 0xE051,
        110 => 0xE052,
        111 => 0xE053,
        119 => 0xE045,
        125 => 0xE05B,
        126 => 0xE05C,
        127 => 0xE05D,
        // Multimedia and power keys sit above the 1:1 range; forwarding them
        // verbatim would land on the Japanese-layout scancodes of AT set 1.
        113 => 0xE020,
        114 => 0xE02E,
        115 => 0xE030,
        116 => 0xE05E,
        163 => 0xE019,
        164 => 0xE022,
        165 => 0xE010,
        166 => 0xE024,
        // evdev 1..=88 share their numbering with AT set 1. Past that the two
        // diverge (89..=95 are the Japanese-layout keys), so anything unlisted
        // returns 0 and the caller leaves it to the host.
        _ => if evdev <= 88 {
            evdev as u32
        } else {
            0
        },
    };
    proof {
        assert(0xE000 <= xt <= 0xE0FF ==> xt >> 8u32 == 0xE0) by (bit_vector);
    }
    xt
}

/// The Ctrl+Alt+Del constants are what the mapping produces for the physical
/// left Ctrl (evdev 29, keycode 37), left Alt (evdev 56, keycode 64) and
/// Delete (evdev 111, keycode 119) keys, so
/// the toolbar button sends the same chord as the keyboard.
pub proof fn lemma_ctrl_alt_del_matches_mapping()
    ensures
        XT_LEFT_CTRL == spec_gtk_keycode_to_xt(37),
        XT_LEFT_ALT == spec_gtk_keycode_to_xt(64),
        XT_DELETE == spec_gtk_keycode_to_xt(119),
{
}

/// Every extended scancode the mapping produces carries the 0xE0 prefix and
/// so lies above one byte: it never collides with a plain key.
pub proof fn lemma_extended_codes_never_collide(hardware_keycode: u32)
    ensures
        spec_gtk_keycode_to_xt(hardware_keycode) > 0xFF ==> (spec_gtk_keycode_to_xt(
            hardware_keycode,
        ) >> 8u32) == 0xE0,
        spec_gtk_keycode_to_xt(hardware_keycode) <= 0xFF ==> spec_gtk_keycode_to_xt(
            hardware_keycode,
        ) <= 0x58,
{
    let xt = spec_gtk_keycode_to_xt(hardware_keycode);
    assert(is_plain_or_extended(xt));
    assert((0xE000 <= xt && xt <= 0xE0FF) ==> (xt >> 8u32) == 0xE0) by (bit_vector);
}

/// Plain keys pass through unchanged: evdev 1..=88 share their numbering
/// with AT set 1, so each of them (GTK keycodes 9..=96) is sent as the
/// scancode with its own number.
pub proof fn lemma_plain_keys_pass_through(evdev: u16)
    requires
        1 <= evdev <= 88,
    ensures
        spec_evdev_to_xt(evdev) == evdev as u32,
        spec_gtk_keycode_to_xt((evdev + 8) as u32) == evdev as u32,
{
}

/// No two keys share a scancode: distinct evdev codes that are forwarded at
/// all map to distinct XT scancodes.
pub proof fn lemma_evdev_to_xt_injective(a: u16, b: u16)
    requires
        a != b,
        spec_evdev_to_xt(a) != 0,
    ensures
        spec_evdev_to_xt(a) != spec_evdev_to_xt(b),
{
}

/// No two GTK keycodes that are forwarded at all share a scancode.
pub proof fn lemma_gtk_keycode_to_xt_injective(a: u32, b: u32)
    requires
        a != b,
        spec_gtk_keycode_to_xt(a) != 0,
    ensures
        spec_gtk_keycode_to_xt(a) != spec_gtk_keycode_to_xt(b),
{
    if spec_gtk_keycode_to_xt(b) != 0 {
        lemma_evdev_to_xt_injective((a - 8) as u16, (b - 8) as u16);
    }
}

/// Above the evdev range that has scancodes (evdev 127, keycode 135) only the
/// four media keys (evdev 163..=166, keycodes 171..=174) are forwarded.
pub proof fn lemma_high_keycodes_are_not_forwarded(hardware_keycode: u32)
    requires
        hardware_keycode >= 136,
        !(171 <= hardware_keycode <= 174),
    ensures
        spec_gtk_keycode_to_xt(hardware_keycode) == 0,
{
}

} // verus!
