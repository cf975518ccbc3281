//! DCS sequence classification.

use vstd::prelude::*;
use crate::parser_ffi::FfiStatus;
use crate::vt::{is_valid_identifier, vt_id_from_value, VtId};

verus! {

/// Identifier of DECSIXEL, `DCS q`.
pub const DEFINE_SIXEL_IMAGE_ID: u64 = 0x71;

/// Identifier of DECDLD, `DCS {`.
pub const DOWNLOAD_DRCS_ID: u64 = 0x7b;

/// Identifier of DECAUPSS, `DCS ! u`.
pub const ASSIGN_USER_PREFERENCE_CHARSET_ID: u64 = 0x7521;

/// Identifier of DECDMAC, `DCS ! z`.
pub const DEFINE_MACRO_ID: u64 = 0x7a21;

/// Identifier of DECRSTS, `DCS $ p`.
pub const RESTORE_TERMINAL_STATE_ID: u64 = 0x7024;

/// Identifier of DECRQSS, `DCS $ q`.
pub const REQUEST_SETTING_ID: u64 = 0x7124;

/// Identifier of DECRSPS, `DCS $ t`.
pub const RESTORE_PRESENTATION_STATE_ID: u64 = 0x7424;

#[derive(Debug, Clone, Copy, PartialEq, Eq, Structural)]
pub enum OutputDcsKind {
    Unmatched,
    DefineSixelImage,
    DownloadDrcs,
    AssignUserPreferenceCharset,
    DefineMacro,
    RestoreTerminalState,
    RequestSetting,
    RestorePresentationState,
}

impl OutputDcsKind {
    pub open spec fn spec_code(self) -> u32 {
        match self {
            OutputDcsKind::Unmatched => 0,
            OutputDcsKind::DefineSixelImage => 1,
            OutputDcsKind::DownloadDrcs => 2,
            OutputDcsKind::AssignUserPreferenceCharset => 3,
            OutputDcsKind::DefineMacro => 4,
            OutputDcsKind::RestoreTerminalState => 5,
            OutputDcsKind::RequestSetting => 6,
            OutputDcsKind::RestorePresentationState => 7,
        }
    }

    pub fn code(self) -> (r: u32)
        ensures
            r == self.spec_code(),
    {
        match self {
            OutputDcsKind::Unmatched => 0,
            OutputDcsKind::DefineSixelImage => 1,
            OutputDcsKind::DownloadDrcs => 2,
            OutputDcsKind::AssignUserPreferenceCharset => 3,
            OutputDcsKind::DefineMacro => 4,
            OutputDcsKind::RestoreTerminalState => 5,
            OutputDcsKind::RequestSetting => 6,
            OutputDcsKind::RestorePresentationState => 7,
        }
    }
}

#[derive(Debug, Clone, Copy, PartialEq, Eq, Structural)]
pub struct OutputDcsPlan {
    pub kind: u32,
}

impl Default for OutputDcsPlan {
    fn default() -> (r: Self)
        ensures
            r.kind == 0,
    {
        OutputDcsPlan { kind: OutputDcsKind::Unmatched.code() }
    }
}

/// The DCS handler chosen for an identifier.
pub open spec fn spec_dcs_kind(id: u64) -> OutputDcsKind {
    if id == DEFINE_SIXEL_IMAGE_ID {
        OutputDcsKind::DefineSixelImage
    } else if id == DOWNLOAD_DRCS_ID {
        OutputDcsKind::DownloadDrcs
    } else if id == ASSIGN_USER_PREFERENCE_CHARSET_ID {
        OutputDcsKind::AssignUserPreferenceCharset
    } else if id == DEFINE_MACRO_ID {
        OutputDcsKind::DefineMacro
    } else if id == RESTORE_TERMINAL_STATE_ID {
        OutputDcsKind::RestoreTerminalState
    } else if id == REQUEST_SETTING_ID {
        OutputDcsKind::RequestSetting
    } else if id == RESTORE_PRESENTATION_STATE_ID {
        OutputDcsKind::RestorePresentationState
    } else {
        OutputDcsKind::Unmatched
    }
}

impl OutputDcsPlan {
    /// Classifies one dispatched DCS sequence by its identifier.
    pub fn from_dcs(id: VtId) -> (r: Self)
        ensures
            r.kind == spec_dcs_kind(id.spec_value()).spec_code(),
    {
        let value = id.value();
        let kind = if value == DEFINE_SIXEL_IMAGE_ID {
            OutputDcsKind::DefineSixelImage
        } else if value == DOWNLOAD_DRCS_ID {
            OutputDcsKind::DownloadDrcs
        } else if value == ASSIGN_USER_PREFERENCE_CHARSET_ID {
            OutputDcsKind::AssignUserPreferenceCharset
        } else if value == DEFINE_MACRO_ID {
            OutputDcsKind::DefineMacro
        } else if value == RESTORE_TERMINAL_STATE_ID {
            OutputDcsKind::RestoreTerminalState
        } else if value == REQUEST_SETTING_ID {
            OutputDcsKind::RequestSetting
        } else if value == RESTORE_PRESENTATION_STATE_ID {
            OutputDcsKind::RestorePresentationState
        } else {
            OutputDcsKind::Unmatched
        };
        OutputDcsPlan { kind: kind.code() }
    }
}

/// Plans one DCS identifier word.
pub fn output_dcs_plan(identifier: u64) -> (r: Result<OutputDcsPlan, FfiStatus>)
    ensures
        !is_valid_identifier(identifier) ==> r == Err::<OutputDcsPlan, FfiStatus>(
            FfiStatus::InvalidArgument,
        ),
        is_valid_identifier(identifier) ==> r == Ok::<OutputDcsPlan, FfiStatus>(
            OutputDcsPlan { kind: spec_dcs_kind(identifier).spec_code() },
        ),
{
    let id = match vt_id_from_value(identifier) {
        Some(id) => id,
        None => return Err(FfiStatus::InvalidArgument),
    };
    Ok(OutputDcsPlan::from_dcs(id))
}

} // verus!
