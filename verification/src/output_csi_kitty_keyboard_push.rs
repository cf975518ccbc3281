//! Kitty keyboard protocol push (`CSI > u`) classification.

use vstd::prelude::*;
use crate::parser_ffi::FfiStatus;
use crate::vt::{is_valid_identifier, or_default, spec_at, vt_id_from_value, Parameters, VtId};

verus! {

/// Identifier of `CSI > u`.
pub const KITTY_KEYBOARD_PUSH_ID: u64 = 0x753e;

#[derive(Debug, Clone, Copy, PartialEq, Eq, Structural)]
pub enum OutputCsiKittyKeyboardPushKind {
    Unmatched,
    Push,
}

impl OutputCsiKittyKeyboardPushKind {
    pub open spec fn spec_code(self) -> u32 {
        match self {
            OutputCsiKittyKeyboardPushKind::Unmatched => 0,
            OutputCsiKittyKeyboardPushKind::Push => 1,
        }
    }

    pub fn code(self) -> (r: u32)
        ensures
            r == self.spec_code(),
    {
        match self {
            OutputCsiKittyKeyboardPushKind::Unmatched => 0,
            OutputCsiKittyKeyboardPushKind::Push => 1,
        }
    }
}

/// A push with its flags.
#[derive(Debug, Clone, Copy, PartialEq, Eq, Structural)]
pub struct OutputCsiKittyKeyboardPushPlan {
    pub kind: u32,
    pub flags: i32,
    pub reserved0: u32,
    pub reserved1: u32,
}

impl Default for OutputCsiKittyKeyboardPushPlan {
    fn default() -> (r: Self)
        ensures
            r == (OutputCsiKittyKeyboardPushPlan { kind: 0, flags: 0, reserved0: 0, reserved1: 0 }),
    {
        OutputCsiKittyKeyboardPushPlan {
            kind: OutputCsiKittyKeyboardPushKind::Unmatched.code(),
            flags: 0,
            reserved0: 0,
            reserved1: 0,
        }
    }
}

/// A push carries its first parameter as flags (omitted as 0).
pub open spec fn spec_kitty_push_plan(id: u64, parameters: Seq<Option<i32>>) -> OutputCsiKittyKeyboardPushPlan {
    if id == KITTY_KEYBOARD_PUSH_ID {
        OutputCsiKittyKeyboardPushPlan {
            kind: 1,
            flags: or_default(spec_at(parameters, 0), 0),
            reserved0: 0,
            reserved1: 0,
        }
    } else {
        OutputCsiKittyKeyboardPushPlan { kind: 0, flags: 0, reserved0: 0, reserved1: 0 }
    }
}

impl OutputCsiKittyKeyboardPushPlan {
    pub fn from_csi(id: VtId, parameters: &Parameters) -> (r: Self)
        ensures
            r == spec_kitty_push_plan(id.spec_value(), parameters.spec_values()),
    {
        if id.value() == KITTY_KEYBOARD_PUSH_ID {
            OutputCsiKittyKeyboardPushPlan {
                kind: OutputCsiKittyKeyboardPushKind::Push.code(),
                flags: parameters.at(0).unwrap_or(0),
                reserved0: 0,
                reserved1: 0,
            }
        } else {
            OutputCsiKittyKeyboardPushPlan::default()
        }
    }
}

/// Plans a push from an identifier word and its flags parameter.
pub fn output_csi_kitty_keyboard_push_plan(identifier: u64, parameter0: i32) -> (r: Result<
    OutputCsiKittyKeyboardPushPlan,
    FfiStatus,
>)
    ensures
        !is_valid_identifier(identifier) ==> r == Err::<OutputCsiKittyKeyboardPushPlan, FfiStatus>(
            FfiStatus::InvalidArgument,
        ),
        is_valid_identifier(identifier) ==> r == Ok::<OutputCsiKittyKeyboardPushPlan, FfiStatus>(
            spec_kitty_push_plan(identifier, seq![Some(parameter0)]),
        ),
{
    let id = match vt_id_from_value(identifier) {
        Some(id) => id,
        None => return Err(FfiStatus::InvalidArgument),
    };
    let parameters = Parameters::from_values(vec![Some(parameter0)]);
    assert(parameters.spec_values() =~= seq![Some(parameter0)]);
    Ok(OutputCsiKittyKeyboardPushPlan::from_csi(id, &parameters))
}

} // verus!
