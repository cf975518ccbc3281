//! DECRQTSR (request terminal state report, `CSI $ u`) classification.

use vstd::prelude::*;
use crate::parser_ffi::FfiStatus;
use crate::vt::{is_valid_identifier, or_default, spec_at, vt_id_from_value, Parameters, VtId};

verus! {

/// Identifier of DECRQTSR, `CSI $ u`.
pub const DECRQTSR_ID: u64 = 0x7524;

#[derive(Debug, Clone, Copy, PartialEq, Eq, Structural)]
pub enum OutputCsiDecrqtsrKind {
    Unmatched,
    RequestTerminalState,
}

impl OutputCsiDecrqtsrKind {
    pub open spec fn spec_code(self) -> u32 {
        match self {
            OutputCsiDecrqtsrKind::Unmatched => 0,
            OutputCsiDecrqtsrKind::RequestTerminalState => 1,
        }
    }

    pub fn code(self) -> (r: u32)
        ensures
            r == self.spec_code(),
    {
        match self {
            OutputCsiDecrqtsrKind::Unmatched => 0,
            OutputCsiDecrqtsrKind::RequestTerminalState => 1,
        }
    }
}

/// DECRQTSR's format and raw format option; an omitted option is -1.
#[derive(Debug, Clone, Copy, PartialEq, Eq, Structural)]
pub struct OutputCsiDecrqtsrPlan {
    pub kind: u32,
    pub format: i32,
    pub format_option: i32,
    pub reserved0: u32,
}

pub open spec fn spec_unmatched_decrqtsr() -> OutputCsiDecrqtsrPlan {
    OutputCsiDecrqtsrPlan { kind: 0, format: 0, format_option: -1i32, reserved0: 0 }
}

impl Default for OutputCsiDecrqtsrPlan {
    fn default() -> (r: Self)
        ensures
            r == spec_unmatched_decrqtsr(),
    {
        OutputCsiDecrqtsrPlan {
            kind: OutputCsiDecrqtsrKind::Unmatched.code(),
            format: 0,
            format_option: -1,
            reserved0: 0,
        }
    }
}

/// A raw ABI parameter: negative means omitted.
pub open spec fn spec_raw_parameter(value: i32) -> Option<i32> {
    if value >= 0 { Some(value) } else { None }
}

pub fn raw_parameter(value: i32) -> (r: Option<i32>)
    ensures
        r == spec_raw_parameter(value),
{
    if value >= 0 { Some(value) } else { None }
}

/// DECRQTSR keeps an omitted format as 0 and an omitted option as -1, so an
/// explicit 0 option stays distinguishable.
pub open spec fn spec_decrqtsr_plan(id: u64, parameters: Seq<Option<i32>>) -> OutputCsiDecrqtsrPlan {
    if id == DECRQTSR_ID {
        OutputCsiDecrqtsrPlan {
            kind: 1,
            format: or_default(spec_at(parameters, 0), 0),
            format_option: or_default(spec_at(parameters, 1), -1i32),
            reserved0: 0,
        }
    } else {
        spec_unmatched_decrqtsr()
    }
}

impl OutputCsiDecrqtsrPlan {
    pub fn from_csi(id: VtId, parameters: &Parameters) -> (r: Self)
        ensures
            r == spec_decrqtsr_plan(id.spec_value(), parameters.spec_values()),
    {
        if id.value() == DECRQTSR_ID {
            OutputCsiDecrqtsrPlan {
                kind: OutputCsiDecrqtsrKind::RequestTerminalState.code(),
                format: parameters.at(0).unwrap_or(0),
                format_option: parameters.at(1).unwrap_or(-1),
                reserved0: 0,
            }
        } else {
            OutputCsiDecrqtsrPlan::default()
        }
    }
}

/// Plans DECRQTSR from an identifier word and two raw parameters (negative
/// meaning omitted).
pub fn output_csi_decrqtsr_plan(identifier: u64, parameter0_raw: i32, parameter1_raw: i32) -> (r:
    Result<OutputCsiDecrqtsrPlan, FfiStatus>)
    ensures
        !is_valid_identifier(identifier) ==> r == Err::<OutputCsiDecrqtsrPlan, FfiStatus>(
            FfiStatus::InvalidArgument,
        ),
        is_valid_identifier(identifier) ==> r == Ok::<OutputCsiDecrqtsrPlan, FfiStatus>(
            spec_decrqtsr_plan(
                identifier,
                seq![spec_raw_parameter(parameter0_raw), spec_raw_parameter(parameter1_raw)],
            ),
        ),
{
    let id = match vt_id_from_value(identifier) {
        Some(id) => id,
        None => return Err(FfiStatus::InvalidArgument),
    };
    let parameters = Parameters::from_values(
        vec![raw_parameter(parameter0_raw), raw_parameter(parameter1_raw)],
    );
    assert(parameters.spec_values() =~= seq![spec_raw_parameter(parameter0_raw), spec_raw_parameter(parameter1_raw)]);
    Ok(OutputCsiDecrqtsrPlan::from_csi(id, &parameters))
}

} // verus!
