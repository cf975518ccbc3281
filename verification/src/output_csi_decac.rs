//! DECAC (assign color, `CSI , |`) classification.

use vstd::prelude::*;
use crate::parser_ffi::FfiStatus;
use crate::vt::{is_valid_identifier, or_default, spec_at, vt_id_from_value, Parameters, VtId};

verus! {

/// Identifier of DECAC, `CSI , |`.
pub const DECAC_ID: u64 = 0x7c2c;

#[derive(Debug, Clone, Copy, PartialEq, Eq, Structural)]
pub enum OutputCsiDecacKind {
    Unmatched,
    AssignColor,
}

impl OutputCsiDecacKind {
    pub open spec fn spec_code(self) -> u32 {
        match self {
            OutputCsiDecacKind::Unmatched => 0,
            OutputCsiDecacKind::AssignColor => 1,
        }
    }

    pub fn code(self) -> (r: u32)
        ensures
            r == self.spec_code(),
    {
        match self {
            OutputCsiDecacKind::Unmatched => 0,
            OutputCsiDecacKind::AssignColor => 1,
        }
    }
}

/// A color assignment: the item and its foreground and background indices.
#[derive(Debug, Clone, Copy, PartialEq, Eq, Structural)]
pub struct OutputCsiDecacPlan {
    pub kind: u32,
    pub item: i32,
    pub foreground_index: i32,
    pub background_index: i32,
}

pub open spec fn spec_unmatched_decac() -> OutputCsiDecacPlan {
    OutputCsiDecacPlan { kind: 0, item: 0, foreground_index: 0, background_index: 0 }
}

impl Default for OutputCsiDecacPlan {
    fn default() -> (r: Self)
        ensures
            r == spec_unmatched_decac(),
    {
        OutputCsiDecacPlan {
            kind: OutputCsiDecacKind::Unmatched.code(),
            item: 0,
            foreground_index: 0,
            background_index: 0,
        }
    }
}

/// DECAC takes its first three parameters (omitted as 0).
pub open spec fn spec_decac_plan(id: u64, parameters: Seq<Option<i32>>) -> OutputCsiDecacPlan {
    if id == DECAC_ID {
        OutputCsiDecacPlan {
            kind: OutputCsiDecacKind::AssignColor.spec_code(),
            item: or_default(spec_at(parameters, 0), 0),
            foreground_index: or_default(spec_at(parameters, 1), 0),
            background_index: or_default(spec_at(parameters, 2), 0),
        }
    } else {
        spec_unmatched_decac()
    }
}

impl OutputCsiDecacPlan {
    pub fn from_csi(id: VtId, parameters: &Parameters) -> (r: Self)
        ensures
            r == spec_decac_plan(id.spec_value(), parameters.spec_values()),
    {
        if id.value() == DECAC_ID {
            OutputCsiDecacPlan {
                kind: OutputCsiDecacKind::AssignColor.code(),
                item: parameters.at(0).unwrap_or(0),
                foreground_index: parameters.at(1).unwrap_or(0),
                background_index: parameters.at(2).unwrap_or(0),
            }
        } else {
            OutputCsiDecacPlan::default()
        }
    }
}

/// Plans DECAC from an identifier word and its three parameters.
pub fn output_csi_decac_plan(
    identifier: u64,
    parameter0: i32,
    parameter1: i32,
    parameter2: i32,
) -> (r: Result<OutputCsiDecacPlan, FfiStatus>)
    ensures
        !is_valid_identifier(identifier) ==> r == Err::<OutputCsiDecacPlan, FfiStatus>(
            FfiStatus::InvalidArgument,
        ),
        is_valid_identifier(identifier) ==> r == Ok::<OutputCsiDecacPlan, FfiStatus>(
            spec_decac_plan(identifier, seq![Some(parameter0), Some(parameter1), Some(parameter2)]),
        ),
{
    let id = match vt_id_from_value(identifier) {
        Some(id) => id,
        None => return Err(FfiStatus::InvalidArgument),
    };
    let parameters = Parameters::from_values(vec![Some(parameter0), Some(parameter1), Some(parameter2)]);
    assert(parameters.spec_values() =~= seq![Some(parameter0), Some(parameter1), Some(parameter2)]);
    Ok(OutputCsiDecacPlan::from_csi(id, &parameters))
}

} // verus!
