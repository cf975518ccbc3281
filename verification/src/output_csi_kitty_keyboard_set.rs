//! Kitty keyboard protocol set (`CSI = u`) classification.

use vstd::prelude::*;
use crate::parser_ffi::{abi_bool, bool_to_abi, FfiStatus};
use crate::vt::{is_valid_identifier, or_default, spec_at, vt_id_from_value, Parameters, VtId};

verus! {

/// Identifier of `CSI = u`.
pub const KITTY_KEYBOARD_SET_ID: u64 = 0x753d;

#[derive(Debug, Clone, Copy, PartialEq, Eq, Structural)]
pub enum OutputCsiKittyKeyboardSetKind {
    Unmatched,
    SetFlags,
}

impl OutputCsiKittyKeyboardSetKind {
    pub open spec fn spec_code(self) -> u32 {
        match self {
            OutputCsiKittyKeyboardSetKind::Unmatched => 0,
            OutputCsiKittyKeyboardSetKind::SetFlags => 1,
        }
    }

    pub fn code(self) -> (r: u32)
        ensures
            r == self.spec_code(),
    {
        match self {
            OutputCsiKittyKeyboardSetKind::Unmatched => 0,
            OutputCsiKittyKeyboardSetKind::SetFlags => 1,
        }
    }
}

/// A set with optional flags and mode, each with its presence bit.
#[derive(Debug, Clone, Copy, PartialEq, Eq, Structural)]
pub struct OutputCsiKittyKeyboardSetPlan {
    pub kind: u32,
    pub has_flags: u32,
    pub flags: i32,
    pub has_mode: u32,
    pub mode: i32,
    pub reserved0: u32,
}

pub open spec fn spec_unmatched_kitty_set() -> OutputCsiKittyKeyboardSetPlan {
    OutputCsiKittyKeyboardSetPlan { kind: 0, has_flags: 0, flags: 0, has_mode: 0, mode: 0, reserved0: 0 }
}

impl Default for OutputCsiKittyKeyboardSetPlan {
    fn default() -> (r: Self)
        ensures
            r == spec_unmatched_kitty_set(),
    {
        OutputCsiKittyKeyboardSetPlan {
            kind: OutputCsiKittyKeyboardSetKind::Unmatched.code(),
            has_flags: 0,
            flags: 0,
            has_mode: 0,
            mode: 0,
            reserved0: 0,
        }
    }
}

/// A set keeps whether parameters 0 (flags) and 1 (mode) were present.
pub open spec fn spec_kitty_set_plan(id: u64, parameters: Seq<Option<i32>>) -> OutputCsiKittyKeyboardSetPlan {
    if id == KITTY_KEYBOARD_SET_ID {
        OutputCsiKittyKeyboardSetPlan {
            kind: 1,
            has_flags: abi_bool(spec_at(parameters, 0).is_some()),
            flags: or_default(spec_at(parameters, 0), 0),
            has_mode: abi_bool(spec_at(parameters, 1).is_some()),
            mode: or_default(spec_at(parameters, 1), 0),
            reserved0: 0,
        }
    } else {
        spec_unmatched_kitty_set()
    }
}

impl OutputCsiKittyKeyboardSetPlan {
    pub fn from_csi(id: VtId, parameters: &Parameters) -> (r: Self)
        ensures
            r == spec_kitty_set_plan(id.spec_value(), parameters.spec_values()),
    {
        if id.value() == KITTY_KEYBOARD_SET_ID {
            let flags = parameters.at(0);
            let mode = parameters.at(1);
            OutputCsiKittyKeyboardSetPlan {
                kind: OutputCsiKittyKeyboardSetKind::SetFlags.code(),
                has_flags: bool_to_abi(flags.is_some()),
                flags: flags.unwrap_or(0),
                has_mode: bool_to_abi(mode.is_some()),
                mode: mode.unwrap_or(0),
                reserved0: 0,
            }
        } else {
            OutputCsiKittyKeyboardSetPlan::default()
        }
    }
}

/// An optional value passed across the ABI as a presence bit and a value.
pub open spec fn spec_present(has: u32, value: i32) -> Option<i32> {
    if has != 0 { Some(value) } else { None }
}

/// Plans a set; the presence bits must be 0 or 1.
pub fn output_csi_kitty_keyboard_set_plan(
    identifier: u64,
    has_flags: u32,
    flags: i32,
    has_mode: u32,
    mode: i32,
) -> (r: Result<OutputCsiKittyKeyboardSetPlan, FfiStatus>)
    ensures
        (has_flags > 1 || has_mode > 1 || !is_valid_identifier(identifier)) ==> r == Err::<
            OutputCsiKittyKeyboardSetPlan,
            FfiStatus,
        >(FfiStatus::InvalidArgument),
        (has_flags <= 1 && has_mode <= 1 && is_valid_identifier(identifier)) ==> r == Ok::<
            OutputCsiKittyKeyboardSetPlan,
            FfiStatus,
        >(spec_kitty_set_plan(identifier, seq![spec_present(has_flags, flags), spec_present(has_mode, mode)])),
{
    if has_flags > 1 || has_mode > 1 {
        return Err(FfiStatus::InvalidArgument);
    }
    let id = match vt_id_from_value(identifier) {
        Some(id) => id,
        None => return Err(FfiStatus::InvalidArgument),
    };
    let flags_value = if has_flags != 0 { Some(flags) } else { None };
    let mode_value = if has_mode != 0 { Some(mode) } else { None };
    let parameters = Parameters::from_values(vec![flags_value, mode_value]);
    assert(parameters.spec_values() =~= seq![spec_present(has_flags, flags), spec_present(has_mode, mode)]);
    Ok(OutputCsiKittyKeyboardSetPlan::from_csi(id, &parameters))
}

} // verus!
