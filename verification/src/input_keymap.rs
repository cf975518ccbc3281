//! VT input key tables: CSI/SS3 final characters and CSI `~` identifiers to
//! Windows virtual-key values.

use vstd::prelude::*;

verus! {

pub const VK_PRIOR: u16 = 0x21;
pub const VK_NEXT: u16 = 0x22;
pub const VK_END: u16 = 0x23;
pub const VK_HOME: u16 = 0x24;
pub const VK_LEFT: u16 = 0x25;
pub const VK_UP: u16 = 0x26;
pub const VK_RIGHT: u16 = 0x27;
pub const VK_DOWN: u16 = 0x28;
pub const VK_INSERT: u16 = 0x2d;
pub const VK_DELETE: u16 = 0x2e;
pub const VK_F1: u16 = 0x70;
pub const VK_F2: u16 = 0x71;
pub const VK_F3: u16 = 0x72;
pub const VK_F4: u16 = 0x73;
pub const VK_F5: u16 = 0x74;
pub const VK_F6: u16 = 0x75;
pub const VK_F7: u16 = 0x76;
pub const VK_F8: u16 = 0x77;
pub const VK_F9: u16 = 0x78;
pub const VK_F10: u16 = 0x79;
pub const VK_F11: u16 = 0x7a;
pub const VK_F12: u16 = 0x7b;

/// Cursor-key table: `A B C D H F P Q R S` are up, down, right, left, home,
/// end and F1 to F4.
pub open spec fn spec_cursor_virtual_key(final_character: u16) -> Option<u16> {
    if final_character == 0x41 {
        Some(VK_UP)
    } else if final_character == 0x42 {
        Some(VK_DOWN)
    } else if final_character == 0x43 {
        Some(VK_RIGHT)
    } else if final_character == 0x44 {
        Some(VK_LEFT)
    } else if final_character == 0x48 {
        Some(VK_HOME)
    } else if final_character == 0x46 {
        Some(VK_END)
    } else if final_character == 0x50 {
        Some(VK_F1)
    } else if final_character == 0x51 {
        Some(VK_F2)
    } else if final_character == 0x52 {
        Some(VK_F3)
    } else if final_character == 0x53 {
        Some(VK_F4)
    } else {
        None
    }
}

/// Generic-key table for CSI `<id> ~`.
pub open spec fn spec_generic_virtual_key(identifier: i32) -> Option<u16> {
    if identifier == 1 {
        Some(VK_HOME)
    } else if identifier == 2 {
        Some(VK_INSERT)
    } else if identifier == 3 {
        Some(VK_DELETE)
    } else if identifier == 4 {
        Some(VK_END)
    } else if identifier == 5 {
        Some(VK_PRIOR)
    } else if identifier == 6 {
        Some(VK_NEXT)
    } else if identifier == 15 {
        Some(VK_F5)
    } else if identifier == 17 {
        Some(VK_F6)
    } else if identifier == 18 {
        Some(VK_F7)
    } else if identifier == 19 {
        Some(VK_F8)
    } else if identifier == 20 {
        Some(VK_F9)
    } else if identifier == 21 {
        Some(VK_F10)
    } else if identifier == 23 {
        Some(VK_F11)
    } else if identifier == 24 {
        Some(VK_F12)
    } else {
        None
    }
}

/// Maps a single-character CSI final to a virtual key.
pub fn cursor_virtual_key(final_character: u16) -> (r: Option<u16>)
    ensures
        r == spec_cursor_virtual_key(final_character),
{
    match final_character {
        0x41 => Some(VK_UP),
        0x42 => Some(VK_DOWN),
        0x43 => Some(VK_RIGHT),
        0x44 => Some(VK_LEFT),
        0x48 => Some(VK_HOME),
        0x46 => Some(VK_END),
        0x50 => Some(VK_F1),
        0x51 => Some(VK_F2),
        0x52 => Some(VK_F3),
        0x53 => Some(VK_F4),
        _ => None,
    }
}

/// Maps a CSI `~` generic-key identifier to a virtual key.
pub fn generic_virtual_key(identifier: i32) -> (r: Option<u16>)
    ensures
        r == spec_generic_virtual_key(identifier),
{
    match identifier {
        1 => Some(VK_HOME),
        2 => Some(VK_INSERT),
        3 => Some(VK_DELETE),
        4 => Some(VK_END),
        5 => Some(VK_PRIOR),
        6 => Some(VK_NEXT),
        15 => Some(VK_F5),
        17 => Some(VK_F6),
        18 => Some(VK_F7),
        19 => Some(VK_F8),
        20 => Some(VK_F9),
        21 => Some(VK_F10),
        23 => Some(VK_F11),
        24 => Some(VK_F12),
        _ => None,
    }
}

/// SS3 finals share the cursor-key table.
pub fn ss3_virtual_key(final_character: u16) -> (r: Option<u16>)
    ensures
        r == spec_cursor_virtual_key(final_character),
{
    cursor_virtual_key(final_character)
}

/// No mapped key is ever zero, so zero can signal "not mapped" across the ABI.
pub proof fn lemma_mapped_keys_are_nonzero(final_character: u16, identifier: i32)
    ensures
        spec_cursor_virtual_key(final_character) matches Some(k) ==> k != 0,
        spec_generic_virtual_key(identifier) matches Some(k) ==> k != 0,
{
}

} // verus!
