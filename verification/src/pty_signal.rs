//! ABI form of a ConPTY signal read plan.

use vstd::prelude::*;
use crate::parser_ffi::FfiStatus;

verus! {

/// The ConPTY signals and their wire identifiers.
#[derive(Debug, Clone, Copy, PartialEq, Eq, Structural)]
pub enum PtySignalKind {
    ShowHideWindow,
    ClearBuffer,
    SetParent,
    ResizeWindow,
}

impl PtySignalKind {
    pub open spec fn spec_code(self) -> u32 {
        match self {
            PtySignalKind::ShowHideWindow => 1,
            PtySignalKind::ClearBuffer => 2,
            PtySignalKind::SetParent => 3,
            PtySignalKind::ResizeWindow => 8,
        }
    }

    /// The wire identifier of the signal.
    pub fn code(self) -> (r: u32)
        ensures
            r == self.spec_code(),
    {
        match self {
            PtySignalKind::ShowHideWindow => 1,
            PtySignalKind::ClearBuffer => 2,
            PtySignalKind::SetParent => 3,
            PtySignalKind::ResizeWindow => 8,
        }
    }
}

/// Which signal to read and how many payload bytes follow it.
#[derive(Debug, Clone, Copy, Default, PartialEq, Eq, Structural)]
pub struct PtySignalReadPlan {
    pub kind: u32,
    pub payload_len: u32,
}

/// The signal with wire identifier `signal_id` and its payload length in
/// bytes: show/hide window and clear buffer carry 2, set-parent 8 and
/// resize-window 4.
pub open spec fn spec_signal(signal_id: u16) -> Option<(PtySignalKind, u32)> {
    if signal_id == 1 {
        Some((PtySignalKind::ShowHideWindow, 2))
    } else if signal_id == 2 {
        Some((PtySignalKind::ClearBuffer, 2))
    } else if signal_id == 3 {
        Some((PtySignalKind::SetParent, 8))
    } else if signal_id == 8 {
        Some((PtySignalKind::ResizeWindow, 4))
    } else {
        None
    }
}

/// The read plan for one ConPTY signal identifier; unknown identifiers are
/// invalid arguments.
pub fn pty_signal_read_plan(signal_id: u16) -> (r: Result<PtySignalReadPlan, FfiStatus>)
    ensures
        match spec_signal(signal_id) {
            Some((kind, payload_len)) => r == Ok::<PtySignalReadPlan, FfiStatus>(
                PtySignalReadPlan { kind: kind.spec_code(), payload_len },
            ),
            None => r == Err::<PtySignalReadPlan, FfiStatus>(FfiStatus::InvalidArgument),
        },
{
    let (kind, payload_len) = match signal_id {
        1 => (PtySignalKind::ShowHideWindow, 2),
        2 => (PtySignalKind::ClearBuffer, 2),
        3 => (PtySignalKind::SetParent, 8),
        8 => (PtySignalKind::ResizeWindow, 4),
        _ => return Err(FfiStatus::InvalidArgument),
    };
    Ok(PtySignalReadPlan { kind: kind.code(), payload_len })
}

} // verus!
