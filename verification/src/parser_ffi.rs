//! Status codes and argument decoding shared by the parser's C ABI, and the
//! decisions behind its input-side entry points.

use vstd::prelude::*;
use crate::input_control::{classify_control_character, spec_classify_control_character};
use crate::input_keymap::{
    cursor_virtual_key, generic_virtual_key, ss3_virtual_key, spec_cursor_virtual_key,
    spec_generic_virtual_key,
};

verus! {

/// Status returned by every parser entry point.
#[derive(Debug, Clone, Copy, PartialEq, Eq, Structural)]
pub enum FfiStatus {
    Success,
    InvalidArgument,
    BufferTooSmall,
    Panic,
}

impl FfiStatus {
    pub open spec fn spec_code(self) -> i32 {
        match self {
            FfiStatus::Success => 0,
            FfiStatus::InvalidArgument => 1,
            FfiStatus::BufferTooSmall => 2,
            FfiStatus::Panic => 255,
        }
    }

    /// The stable ABI number of the status.
    pub fn code(self) -> (r: i32)
        ensures
            r == self.spec_code(),
    {
        match self {
            FfiStatus::Success => 0,
            FfiStatus::InvalidArgument => 1,
            FfiStatus::BufferTooSmall => 2,
            FfiStatus::Panic => 255,
        }
    }
}

/// An ABI boolean: 0 and 1 only.
pub open spec fn spec_bool_from_abi(value: u32) -> Option<bool> {
    if value == 0 {
        Some(false)
    } else if value == 1 {
        Some(true)
    } else {
        None
    }
}

pub fn bool_from_abi(value: u32) -> (r: Option<bool>)
    ensures
        r == spec_bool_from_abi(value),
{
    match value {
        0 => Some(false),
        1 => Some(true),
        _ => None,
    }
}

/// `false` as 0, `true` as 1.
pub open spec fn abi_bool(value: bool) -> u32 {
    if value { 1 } else { 0 }
}

pub fn bool_to_abi(value: bool) -> (r: u32)
    ensures
        r == abi_bool(value),
{
    if value { 1 } else { 0 }
}

/// ABI projection of a control-character plan.
#[derive(Debug, Clone, Copy, Default, PartialEq, Eq, Structural)]
pub struct TerminalParserFfiControlCharacterPlan {
    pub kind: u32,
    pub character: u16,
    pub forced_virtual_key: u16,
    pub write_ctrl: u32,
    pub clear_layout_modifiers: u32,
}

/// The ABI projection of the classification of `code_unit`.
pub open spec fn spec_ffi_control_plan(code_unit: u16, write_alt: bool) -> TerminalParserFfiControlCharacterPlan {
    let expected = spec_classify_control_character(code_unit, write_alt);
    TerminalParserFfiControlCharacterPlan {
        kind: expected.kind.spec_code(),
        character: expected.character,
        forced_virtual_key: expected.forced_virtual_key,
        write_ctrl: abi_bool(expected.write_ctrl),
        clear_layout_modifiers: abi_bool(expected.clear_layout_modifiers),
    }
}

/// Classifies one input code unit for the ABI; `write_alt` must be 0 or 1.
pub fn input_control_character_plan(code_unit: u16, write_alt: u32) -> (r: Result<
    TerminalParserFfiControlCharacterPlan,
    FfiStatus,
>)
    ensures
        write_alt > 1 ==> r == Err::<TerminalParserFfiControlCharacterPlan, FfiStatus>(
            FfiStatus::InvalidArgument,
        ),
        write_alt <= 1 ==> r == Ok::<TerminalParserFfiControlCharacterPlan, FfiStatus>(
            spec_ffi_control_plan(code_unit, write_alt != 0),
        ),
{
    if write_alt > 1 {
        return Err(FfiStatus::InvalidArgument);
    }
    let plan = classify_control_character(code_unit, write_alt != 0);
    Ok(TerminalParserFfiControlCharacterPlan {
        kind: plan.kind.code(),
        character: plan.character,
        forced_virtual_key: plan.forced_virtual_key,
        write_ctrl: bool_to_abi(plan.write_ctrl),
        clear_layout_modifiers: bool_to_abi(plan.clear_layout_modifiers),
    })
}

pub open spec fn key_or_zero(key: Option<u16>) -> u16 {
    match key {
        Some(k) => k,
        None => 0,
    }
}

/// Cursor-key lookup for the ABI; 0 means "not mapped".
pub fn terminal_parser_ffi_input_cursor_vkey(final_character: u16) -> (r: u16)
    ensures
        r == key_or_zero(spec_cursor_virtual_key(final_character)),
{
    cursor_virtual_key(final_character).unwrap_or(0)
}

/// Generic-key lookup for the ABI; 0 means "not mapped".
pub fn terminal_parser_ffi_input_generic_vkey(identifier: i32) -> (r: u16)
    ensures
        r == key_or_zero(spec_generic_virtual_key(identifier)),
{
    generic_virtual_key(identifier).unwrap_or(0)
}

/// SS3-key lookup for the ABI; 0 means "not mapped".
pub fn terminal_parser_ffi_input_ss3_vkey(final_character: u16) -> (r: u16)
    ensures
        r == key_or_zero(spec_cursor_virtual_key(final_character)),
{
    ss3_virtual_key(final_character).unwrap_or(0)
}

} // verus!
