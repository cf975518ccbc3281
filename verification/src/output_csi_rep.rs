//! REP (repeat the last printed character, `CSI b`) classification.

use vstd::prelude::*;
use crate::parser_ffi::FfiStatus;
use crate::vt::{is_valid_identifier, or_default, spec_at, vt_id_from_value, Parameters, VtId};

verus! {

/// Identifier of REP, `CSI b`.
pub const REP_ID: u64 = 0x62;

#[derive(Debug, Clone, Copy, PartialEq, Eq, Structural)]
pub enum OutputCsiRepKind {
    Unmatched,
    Repeat,
    HandledNoop,
}

impl OutputCsiRepKind {
    pub open spec fn spec_code(self) -> u32 {
        match self {
            OutputCsiRepKind::Unmatched => 0,
            OutputCsiRepKind::Repeat => 1,
            OutputCsiRepKind::HandledNoop => 2,
        }
    }

    pub fn code(self) -> (r: u32)
        ensures
            r == self.spec_code(),
    {
        match self {
            OutputCsiRepKind::Unmatched => 0,
            OutputCsiRepKind::Repeat => 1,
            OutputCsiRepKind::HandledNoop => 2,
        }
    }
}

/// A repeat and its count.
#[derive(Debug, Clone, Copy, Default, PartialEq, Eq, Structural)]
pub struct OutputCsiRepPlan {
    pub kind: u32,
    pub count: i32,
}

/// REP's count: its first parameter, where an omitted or non-positive value
/// means one.
pub open spec fn spec_repeat_count(parameters: Seq<Option<i32>>) -> i32 {
    let count = or_default(spec_at(parameters, 0), 0);
    if count < 1 { 1 } else { count }
}

/// REP repeats the last printed character; with nothing printed yet (code
/// unit 0) it is handled and does nothing; other sequences are unmatched.
pub open spec fn spec_rep_plan(id: u64, parameters: Seq<Option<i32>>, last_printed_char: u16) -> OutputCsiRepPlan {
    if id != REP_ID {
        OutputCsiRepPlan { kind: 0, count: 0 }
    } else if last_printed_char == 0 {
        OutputCsiRepPlan { kind: 2, count: 0 }
    } else {
        OutputCsiRepPlan { kind: 1, count: spec_repeat_count(parameters) }
    }
}

impl OutputCsiRepPlan {
    pub fn from_csi(id: VtId, parameters: &Parameters, last_printed_char: u16) -> (r: Self)
        ensures
            r == spec_rep_plan(id.spec_value(), parameters.spec_values(), last_printed_char),
    {
        if id.value() != REP_ID {
            return OutputCsiRepPlan { kind: OutputCsiRepKind::Unmatched.code(), count: 0 };
        }
        if last_printed_char == 0 {
            return OutputCsiRepPlan { kind: OutputCsiRepKind::HandledNoop.code(), count: 0 };
        }
        let count = parameters.at(0).unwrap_or(0);
        OutputCsiRepPlan {
            kind: OutputCsiRepKind::Repeat.code(),
            count: if count < 1 { 1 } else { count },
        }
    }
}

/// Plans REP from an identifier word, its count parameter and the last
/// printed code unit (0 for none).
pub fn output_csi_rep_plan(identifier: u64, parameter0: i32, last_printed_char: u16) -> (r: Result<
    OutputCsiRepPlan,
    FfiStatus,
>)
    ensures
        !is_valid_identifier(identifier) ==> r == Err::<OutputCsiRepPlan, FfiStatus>(
            FfiStatus::InvalidArgument,
        ),
        is_valid_identifier(identifier) ==> r == Ok::<OutputCsiRepPlan, FfiStatus>(
            spec_rep_plan(identifier, seq![Some(parameter0)], last_printed_char),
        ),
{
    let id = match vt_id_from_value(identifier) {
        Some(id) => id,
        None => return Err(FfiStatus::InvalidArgument),
    };
    let parameters = Parameters::from_values(vec![Some(parameter0)]);
    assert(parameters.spec_values() =~= seq![Some(parameter0)]);
    Ok(OutputCsiRepPlan::from_csi(id, &parameters, last_printed_char))
}

} // verus!
