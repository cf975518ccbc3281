//! DECIC / DECDC (insert / delete column) classification.

use vstd::prelude::*;
use crate::parser_ffi::FfiStatus;
use crate::vt::{is_valid_identifier, or_default, spec_at, vt_id_from_value, Parameters, VtId};

verus! {

/// Identifier of DECIC, `CSI ' }`.
pub const DECIC_ID: u64 = 0x7d27;

/// Identifier of DECDC, `CSI ' ~`.
pub const DECDC_ID: u64 = 0x7e27;

/// Which column operation a sequence asks for.
#[derive(Debug, Clone, Copy, PartialEq, Eq, Structural)]
pub enum OutputCsiColumnKind {
    Unmatched,
    InsertColumn,
    DeleteColumn,
}

impl OutputCsiColumnKind {
    pub open spec fn spec_code(self) -> u32 {
        match self {
            OutputCsiColumnKind::Unmatched => 0,
            OutputCsiColumnKind::InsertColumn => 1,
            OutputCsiColumnKind::DeleteColumn => 2,
        }
    }

    /// The stable ABI number of the kind.
    pub fn code(self) -> (r: u32)
        ensures
            r == self.spec_code(),
    {
        match self {
            OutputCsiColumnKind::Unmatched => 0,
            OutputCsiColumnKind::InsertColumn => 1,
            OutputCsiColumnKind::DeleteColumn => 2,
        }
    }
}

/// A column plan: the kind and its raw count parameter.
#[derive(Debug, Clone, Copy, PartialEq, Eq, Structural)]
pub struct OutputCsiColumnPlan {
    pub kind: u32,
    pub count: i32,
    pub reserved0: u32,
    pub reserved1: u32,
}

pub open spec fn spec_plan(kind: OutputCsiColumnKind, count: i32) -> OutputCsiColumnPlan {
    OutputCsiColumnPlan { kind: kind.spec_code(), count, reserved0: 0, reserved1: 0 }
}

impl Default for OutputCsiColumnPlan {
    fn default() -> (r: Self)
        ensures
            r == spec_plan(OutputCsiColumnKind::Unmatched, 0),
    {
        plan(OutputCsiColumnKind::Unmatched, 0)
    }
}

/// A plan of `kind` with `count` and zeroed reserved fields.
pub fn plan(kind: OutputCsiColumnKind, count: i32) -> (r: OutputCsiColumnPlan)
    ensures
        r == spec_plan(kind, count),
{
    OutputCsiColumnPlan { kind: kind.code(), count, reserved0: 0, reserved1: 0 }
}

/// DECIC and DECDC carry their first parameter raw (omitted as 0); any other
/// sequence is unmatched.
pub open spec fn spec_column_plan(id: u64, parameters: Seq<Option<i32>>) -> OutputCsiColumnPlan {
    if id == DECIC_ID {
        spec_plan(OutputCsiColumnKind::InsertColumn, or_default(spec_at(parameters, 0), 0))
    } else if id == DECDC_ID {
        spec_plan(OutputCsiColumnKind::DeleteColumn, or_default(spec_at(parameters, 0), 0))
    } else {
        spec_plan(OutputCsiColumnKind::Unmatched, 0)
    }
}

impl OutputCsiColumnPlan {
    /// Classifies one dispatched CSI sequence.
    pub fn from_csi(id: VtId, parameters: &Parameters) -> (r: Self)
        ensures
            r == spec_column_plan(id.spec_value(), parameters.spec_values()),
    {
        let value = id.value();
        if value == DECIC_ID {
            plan(OutputCsiColumnKind::InsertColumn, parameters.at(0).unwrap_or(0))
        } else if value == DECDC_ID {
            plan(OutputCsiColumnKind::DeleteColumn, parameters.at(0).unwrap_or(0))
        } else {
            plan(OutputCsiColumnKind::Unmatched, 0)
        }
    }
}

/// Plans one column sequence received as an identifier word and its first
/// parameter; an undecodable identifier is an invalid argument.
pub fn output_csi_column_plan(identifier: u64, parameter0: i32) -> (r: Result<
    OutputCsiColumnPlan,
    FfiStatus,
>)
    ensures
        !is_valid_identifier(identifier) ==> r == Err::<OutputCsiColumnPlan, FfiStatus>(
            FfiStatus::InvalidArgument,
        ),
        is_valid_identifier(identifier) ==> r == Ok::<OutputCsiColumnPlan, FfiStatus>(
            spec_column_plan(identifier, seq![Some(parameter0)]),
        ),
{
    let id = match vt_id_from_value(identifier) {
        Some(id) => id,
        None => return Err(FfiStatus::InvalidArgument),
    };
    let mut values: Vec<Option<i32>> = Vec::new();
    values.push(Some(parameter0));
    let parameters = Parameters::from_values(values);
    assert(parameters.spec_values() =~= seq![Some(parameter0)]);
    Ok(OutputCsiColumnPlan::from_csi(id, &parameters))
}

} // verus!
