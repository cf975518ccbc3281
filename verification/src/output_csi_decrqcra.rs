//! DECRQCRA (request checksum of rectangular area, `CSI * y`) classification.

use vstd::prelude::*;
use crate::parser_ffi::FfiStatus;
use crate::vt::{is_valid_identifier, or_default, spec_at, vt_id_from_value, Parameters, VtId};

verus! {

/// Identifier of DECRQCRA, `CSI * y`.
pub const DECRQCRA_ID: u64 = 0x792a;

#[derive(Debug, Clone, Copy, PartialEq, Eq, Structural)]
pub enum OutputCsiDecrqcraKind {
    Unmatched,
    RequestChecksumRectangularArea,
}

impl OutputCsiDecrqcraKind {
    pub open spec fn spec_code(self) -> u32 {
        match self {
            OutputCsiDecrqcraKind::Unmatched => 0,
            OutputCsiDecrqcraKind::RequestChecksumRectangularArea => 1,
        }
    }

    pub fn code(self) -> (r: u32)
        ensures
            r == self.spec_code(),
    {
        match self {
            OutputCsiDecrqcraKind::Unmatched => 0,
            OutputCsiDecrqcraKind::RequestChecksumRectangularArea => 1,
        }
    }
}

/// The four scalar DECRQCRA fields: request id, page, bottom and right.
#[derive(Debug, Clone, Copy, Default, PartialEq, Eq, Structural)]
pub struct OutputCsiDecrqcraPlan {
    pub kind: u32,
    pub request_id: i32,
    pub page: i32,
    pub bottom: i32,
    pub right: i32,
}

/// DECRQCRA reads parameters 0, 1, 4 and 5 (omitted as 0); top and left
/// (2 and 3) are not part of the plan.
pub open spec fn spec_decrqcra_plan(id: u64, parameters: Seq<Option<i32>>) -> OutputCsiDecrqcraPlan {
    if id == DECRQCRA_ID {
        OutputCsiDecrqcraPlan {
            kind: 1,
            request_id: or_default(spec_at(parameters, 0), 0),
            page: or_default(spec_at(parameters, 1), 0),
            bottom: or_default(spec_at(parameters, 4), 0),
            right: or_default(spec_at(parameters, 5), 0),
        }
    } else {
        OutputCsiDecrqcraPlan { kind: 0, request_id: 0, page: 0, bottom: 0, right: 0 }
    }
}

impl OutputCsiDecrqcraPlan {
    pub fn from_csi(id: VtId, parameters: &Parameters) -> (r: Self)
        ensures
            r == spec_decrqcra_plan(id.spec_value(), parameters.spec_values()),
    {
        if id.value() == DECRQCRA_ID {
            OutputCsiDecrqcraPlan {
                kind: OutputCsiDecrqcraKind::RequestChecksumRectangularArea.code(),
                request_id: parameters.at(0).unwrap_or(0),
                page: parameters.at(1).unwrap_or(0),
                bottom: parameters.at(4).unwrap_or(0),
                right: parameters.at(5).unwrap_or(0),
            }
        } else {
            OutputCsiDecrqcraPlan {
                kind: OutputCsiDecrqcraKind::Unmatched.code(),
                request_id: 0,
                page: 0,
                bottom: 0,
                right: 0,
            }
        }
    }
}

/// Plans DECRQCRA from an identifier word and its four scalar parameters.
pub fn output_csi_decrqcra_plan(
    identifier: u64,
    request_id: i32,
    page: i32,
    bottom: i32,
    right: i32,
) -> (r: Result<OutputCsiDecrqcraPlan, FfiStatus>)
    ensures
        !is_valid_identifier(identifier) ==> r == Err::<OutputCsiDecrqcraPlan, FfiStatus>(
            FfiStatus::InvalidArgument,
        ),
        is_valid_identifier(identifier) ==> r == Ok::<OutputCsiDecrqcraPlan, FfiStatus>(
            spec_decrqcra_plan(
                identifier,
                seq![Some(request_id), Some(page), None, None, Some(bottom), Some(right)],
            ),
        ),
{
    let id = match vt_id_from_value(identifier) {
        Some(id) => id,
        None => return Err(FfiStatus::InvalidArgument),
    };
    let parameters = Parameters::from_values(
        vec![Some(request_id), Some(page), None, None, Some(bottom), Some(right)],
    );
    assert(parameters.spec_values() =~= seq![Some(request_id), Some(page), None, None, Some(bottom), Some(right)]);
    Ok(OutputCsiDecrqcraPlan::from_csi(id, &parameters))
}

} // verus!
