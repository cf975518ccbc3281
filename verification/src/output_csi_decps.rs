//! DECPS (play sound, `CSI , ~`) recognition.

use vstd::prelude::*;
use crate::parser_ffi::FfiStatus;
use crate::vt::{is_valid_identifier, vt_id_from_value, Parameters, VtId};

verus! {

/// Identifier of `CSI , ~`: `,` (0x2c) then `~` (0x7e).
pub const DECPS_ID: u64 = 0x7e2c;

/// The semantic action planned for DECPS.
#[derive(Debug, Clone, PartialEq, Eq)]
pub enum DecpsAction {
    PlaySounds(Parameters),
}

/// Recognizes DECPS and keeps its parameters, untouched, for the sound
/// dispatch; any other identifier is not claimed.
pub fn plan(id: VtId, parameters: &Parameters) -> (r: Option<DecpsAction>)
    ensures
        r.is_some() == (id.spec_value() == DECPS_ID),
        r matches Some(DecpsAction::PlaySounds(p)) ==> p.spec_values() == parameters.spec_values()
            && forall|i: int| #[trigger] p.spec_sub_params(i) == parameters.spec_sub_params(i),
{
    if id.value() == DECPS_ID {
        Some(DecpsAction::PlaySounds(parameters.duplicate()))
    } else {
        None
    }
}

/// Whether a sequence is DECPS.
#[derive(Debug, Clone, Copy, PartialEq, Eq, Structural)]
pub enum OutputCsiDecpsKind {
    Unmatched,
    PlaySounds,
}

impl OutputCsiDecpsKind {
    pub open spec fn spec_code(self) -> u32 {
        match self {
            OutputCsiDecpsKind::Unmatched => 0,
            OutputCsiDecpsKind::PlaySounds => 1,
        }
    }

    pub fn code(self) -> (r: u32)
        ensures
            r == self.spec_code(),
    {
        match self {
            OutputCsiDecpsKind::Unmatched => 0,
            OutputCsiDecpsKind::PlaySounds => 1,
        }
    }
}

/// ABI classification of DECPS; its parameters stay with the caller.
#[derive(Debug, Clone, Copy, Default, PartialEq, Eq, Structural)]
pub struct OutputCsiDecpsPlan {
    pub kind: u32,
}

/// Classifies an identifier word through [`plan`].
pub fn output_csi_decps_plan(identifier: u64) -> (r: Result<OutputCsiDecpsPlan, FfiStatus>)
    ensures
        !is_valid_identifier(identifier) ==> r == Err::<OutputCsiDecpsPlan, FfiStatus>(
            FfiStatus::InvalidArgument,
        ),
        is_valid_identifier(identifier) ==> r == Ok::<OutputCsiDecpsPlan, FfiStatus>(
            OutputCsiDecpsPlan {
                kind: if identifier == DECPS_ID { 1 } else { 0 },
            },
        ),
{
    let id = match vt_id_from_value(identifier) {
        Some(id) => id,
        None => return Err(FfiStatus::InvalidArgument),
    };
    let kind = match plan(id, &Parameters::from_values(Vec::new())) {
        Some(DecpsAction::PlaySounds(_)) => OutputCsiDecpsKind::PlaySounds,
        None => OutputCsiDecpsKind::Unmatched,
    };
    Ok(OutputCsiDecpsPlan { kind: kind.code() })
}

} // verus!
