//! DECCARA / DECRARA (change / reverse attributes in rectangular area)
//! classification.

use vstd::prelude::*;
use crate::parser_ffi::FfiStatus;
use crate::vt::{is_valid_identifier, or_default, spec_at, vt_id_from_value, Parameters, VtId};

verus! {

/// Identifier of DECCARA, `CSI $ r`.
pub const DECCARA_ID: u64 = 0x7224;

/// Identifier of DECRARA, `CSI $ t`.
pub const DECRARA_ID: u64 = 0x7424;

#[derive(Debug, Clone, Copy, PartialEq, Eq, Structural)]
pub enum OutputCsiRectAttributesKind {
    Unmatched,
    Change,
    Reverse,
}

impl OutputCsiRectAttributesKind {
    pub open spec fn spec_code(self) -> u32 {
        match self {
            OutputCsiRectAttributesKind::Unmatched => 0,
            OutputCsiRectAttributesKind::Change => 1,
            OutputCsiRectAttributesKind::Reverse => 2,
        }
    }

    pub fn code(self) -> (r: u32)
        ensures
            r == self.spec_code(),
    {
        match self {
            OutputCsiRectAttributesKind::Unmatched => 0,
            OutputCsiRectAttributesKind::Change => 1,
            OutputCsiRectAttributesKind::Reverse => 2,
        }
    }
}

/// The operation and the bottom/right corner; top, left and the attribute
/// list stay with the caller.
#[derive(Debug, Clone, Copy, Default, PartialEq, Eq, Structural)]
pub struct OutputCsiRectAttributesPlan {
    pub kind: u32,
    pub bottom: i32,
    pub right: i32,
}

/// Both operations read bottom and right from parameters 2 and 3 (omitted as 0).
pub open spec fn spec_rect_attributes_plan(id: u64, parameters: Seq<Option<i32>>) -> OutputCsiRectAttributesPlan {
    if id == DECCARA_ID || id == DECRARA_ID {
        OutputCsiRectAttributesPlan {
            kind: if id == DECCARA_ID { 1 } else { 2 },
            bottom: or_default(spec_at(parameters, 2), 0),
            right: or_default(spec_at(parameters, 3), 0),
        }
    } else {
        OutputCsiRectAttributesPlan { kind: 0, bottom: 0, right: 0 }
    }
}

impl OutputCsiRectAttributesPlan {
    pub fn from_csi(id: VtId, parameters: &Parameters) -> (r: Self)
        ensures
            r == spec_rect_attributes_plan(id.spec_value(), parameters.spec_values()),
    {
        let value = id.value();
        let kind = if value == DECCARA_ID {
            OutputCsiRectAttributesKind::Change
        } else if value == DECRARA_ID {
            OutputCsiRectAttributesKind::Reverse
        } else {
            OutputCsiRectAttributesKind::Unmatched
        };
        if kind != OutputCsiRectAttributesKind::Unmatched {
            OutputCsiRectAttributesPlan {
                kind: kind.code(),
                bottom: parameters.at(2).unwrap_or(0),
                right: parameters.at(3).unwrap_or(0),
            }
        } else {
            OutputCsiRectAttributesPlan { kind: 0, bottom: 0, right: 0 }
        }
    }
}

/// Plans DECCARA/DECRARA from an identifier word and the bottom/right values.
pub fn output_csi_rect_attributes_plan(identifier: u64, bottom: i32, right: i32) -> (r: Result<
    OutputCsiRectAttributesPlan,
    FfiStatus,
>)
    ensures
        !is_valid_identifier(identifier) ==> r == Err::<OutputCsiRectAttributesPlan, FfiStatus>(
            FfiStatus::InvalidArgument,
        ),
        is_valid_identifier(identifier) ==> r == Ok::<OutputCsiRectAttributesPlan, FfiStatus>(
            spec_rect_attributes_plan(identifier, seq![None, None, Some(bottom), Some(right)]),
        ),
{
    let id = match vt_id_from_value(identifier) {
        Some(id) => id,
        None => return Err(FfiStatus::InvalidArgument),
    };
    let parameters = Parameters::from_values(vec![None, None, Some(bottom), Some(right)]);
    assert(parameters.spec_values() =~= seq![None, None, Some(bottom), Some(right)]);
    Ok(OutputCsiRectAttributesPlan::from_csi(id, &parameters))
}

} // verus!
