//! ANSI and DEC private set/reset mode (`CSI h`, `CSI ? h`, `CSI l`,
//! `CSI ? l`) classification.

use vstd::prelude::*;
use crate::parser_ffi::{abi_bool, bool_to_abi, FfiStatus};
use crate::vt::{is_valid_identifier, vt_id_from_value, Parameters, VtId, or_default, spec_at};

verus! {

/// Identifier of SM, `CSI h`.
pub const SET_MODE_ID: u64 = 0x68;

/// Identifier of DECSET, `CSI ? h`.
pub const SET_PRIVATE_MODE_ID: u64 = 0x683f;

/// Identifier of RM, `CSI l`.
pub const RESET_MODE_ID: u64 = 0x6c;

/// Identifier of DECRST, `CSI ? l`.
pub const RESET_PRIVATE_MODE_ID: u64 = 0x6c3f;

#[derive(Debug, Clone, Copy, PartialEq, Eq, Structural)]
pub enum OutputCsiModeKind {
    Unmatched,
    Mode,
}

impl OutputCsiModeKind {
    pub open spec fn spec_code(self) -> u32 {
        match self {
            OutputCsiModeKind::Unmatched => 0,
            OutputCsiModeKind::Mode => 1,
        }
    }

    pub fn code(self) -> (r: u32)
        ensures
            r == self.spec_code(),
    {
        match self {
            OutputCsiModeKind::Unmatched => 0,
            OutputCsiModeKind::Mode => 1,
        }
    }
}

/// One mode change: whether it is a DEC private mode, whether it enables,
/// and the mode number.
#[derive(Debug, Clone, Copy, PartialEq, Eq, Structural)]
pub struct OutputCsiModePlan {
    pub kind: u32,
    pub private_mode: u32,
    pub enabled: u32,
    pub mode: i32,
}

pub open spec fn spec_unmatched_mode() -> OutputCsiModePlan {
    OutputCsiModePlan { kind: 0, private_mode: 0, enabled: 0, mode: 0 }
}

impl Default for OutputCsiModePlan {
    fn default() -> (r: Self)
        ensures
            r == spec_unmatched_mode(),
    {
        OutputCsiModePlan { kind: OutputCsiModeKind::Unmatched.code(), private_mode: 0, enabled: 0, mode: 0 }
    }
}

pub open spec fn is_mode_id(id: u64) -> bool {
    id == SET_MODE_ID || id == SET_PRIVATE_MODE_ID || id == RESET_MODE_ID || id == RESET_PRIVATE_MODE_ID
}

/// The four mode sequences change the mode named by their first parameter
/// (omitted as 0); the `?` forms are private, the `h` forms enable.
pub open spec fn spec_mode_plan(id: u64, parameters: Seq<Option<i32>>) -> OutputCsiModePlan {
    if is_mode_id(id) {
        OutputCsiModePlan {
            kind: 1,
            private_mode: abi_bool(id == SET_PRIVATE_MODE_ID || id == RESET_PRIVATE_MODE_ID),
            enabled: abi_bool(id == SET_MODE_ID || id == SET_PRIVATE_MODE_ID),
            mode: or_default(spec_at(parameters, 0), 0),
        }
    } else {
        spec_unmatched_mode()
    }
}

impl OutputCsiModePlan {
    pub fn from_csi(id: VtId, parameters: &Parameters) -> (r: Self)
        ensures
            r == spec_mode_plan(id.spec_value(), parameters.spec_values()),
    {
        let value = id.value();
        if value == SET_MODE_ID || value == SET_PRIVATE_MODE_ID || value == RESET_MODE_ID
            || value == RESET_PRIVATE_MODE_ID {
            OutputCsiModePlan {
                kind: OutputCsiModeKind::Mode.code(),
                private_mode: bool_to_abi(value == SET_PRIVATE_MODE_ID || value == RESET_PRIVATE_MODE_ID),
                enabled: bool_to_abi(value == SET_MODE_ID || value == SET_PRIVATE_MODE_ID),
                mode: parameters.at(0).unwrap_or(0),
            }
        } else {
            OutputCsiModePlan::default()
        }
    }
}

/// Plans one set/reset-mode parameter from an identifier word.
pub fn output_csi_mode_plan(identifier: u64, mode: i32) -> (r: Result<OutputCsiModePlan, FfiStatus>)
    ensures
        !is_valid_identifier(identifier) ==> r == Err::<OutputCsiModePlan, FfiStatus>(
            FfiStatus::InvalidArgument,
        ),
        is_valid_identifier(identifier) ==> r == Ok::<OutputCsiModePlan, FfiStatus>(
            spec_mode_plan(identifier, seq![Some(mode)]),
        ),
{
    let id = match vt_id_from_value(identifier) {
        Some(id) => id,
        None => return Err(FfiStatus::InvalidArgument),
    };
    let parameters = Parameters::from_values(vec![Some(mode)]);
    assert(parameters.spec_values() =~= seq![Some(mode)]);
    Ok(OutputCsiModePlan::from_csi(id, &parameters))
}

} // verus!
