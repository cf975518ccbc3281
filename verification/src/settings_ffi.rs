//! Status codes, plan encodings and argument decoding behind the settings
//! C ABI.

use vstd::prelude::*;
use crate::application_state::{
    spec_workspace_rename_plan, workspace_rename_plan, WorkspaceRenamePlan,
};

verus! {

/// Status returned by every settings entry point.
#[derive(Debug, Clone, Copy, PartialEq, Eq, Structural)]
pub enum FfiStatus {
    Success,
    InvalidArgument,
    Panic,
}

impl FfiStatus {
    pub open spec fn spec_code(self) -> i32 {
        match self {
            FfiStatus::Success => 0,
            FfiStatus::InvalidArgument => 1,
            FfiStatus::Panic => 255,
        }
    }

    /// The stable ABI number of the status.
    pub fn code(self) -> (r: i32)
        ensures
            r == self.spec_code(),
    {
        match self {
            FfiStatus::Success => 0,
            FfiStatus::InvalidArgument => 1,
            FfiStatus::Panic => 255,
        }
    }
}

/// Workspace-rename decisions as the ABI reports them.
#[derive(Debug, Clone, Copy, PartialEq, Eq, Structural)]
pub enum WorkspaceRenamePlanFfi {
    Noop,
    Remove,
    Rename,
}

impl WorkspaceRenamePlanFfi {
    pub open spec fn spec_code(self) -> u32 {
        match self {
            WorkspaceRenamePlanFfi::Noop => 0,
            WorkspaceRenamePlanFfi::Remove => 1,
            WorkspaceRenamePlanFfi::Rename => 2,
        }
    }

    /// The stable ABI number of the decision.
    pub fn code(self) -> (r: u32)
        ensures
            r == self.spec_code(),
    {
        match self {
            WorkspaceRenamePlanFfi::Noop => 0,
            WorkspaceRenamePlanFfi::Remove => 1,
            WorkspaceRenamePlanFfi::Rename => 2,
        }
    }
}

pub open spec fn spec_plan_to_ffi(plan: WorkspaceRenamePlan) -> WorkspaceRenamePlanFfi {
    match plan {
        WorkspaceRenamePlan::Noop => WorkspaceRenamePlanFfi::Noop,
        WorkspaceRenamePlan::Remove => WorkspaceRenamePlanFfi::Remove,
        WorkspaceRenamePlan::Rename => WorkspaceRenamePlanFfi::Rename,
    }
}

impl From<WorkspaceRenamePlan> for WorkspaceRenamePlanFfi {
    fn from(value: WorkspaceRenamePlan) -> (r: Self) {
        match value {
            WorkspaceRenamePlan::Noop => WorkspaceRenamePlanFfi::Noop,
            WorkspaceRenamePlan::Remove => WorkspaceRenamePlanFfi::Remove,
            WorkspaceRenamePlan::Rename => WorkspaceRenamePlanFfi::Rename,
        }
    }
}

impl vstd::std_specs::convert::FromSpecImpl<WorkspaceRenamePlan> for WorkspaceRenamePlanFfi {
    open spec fn obeys_from_spec() -> bool {
        true
    }

    open spec fn from_spec(v: WorkspaceRenamePlan) -> Self {
        spec_plan_to_ffi(v)
    }
}

/// Legacy-shell commandline fix-up decisions as the ABI reports them.
#[derive(Debug, Clone, Copy, PartialEq, Eq, Structural)]
pub enum CommandlineFixupPlanFfi {
    Unmatched,
    ClearOverride,
    RestoreCmdFullPath,
    RestorePowershellFullPath,
}

impl CommandlineFixupPlanFfi {
    pub open spec fn spec_code(self) -> u32 {
        match self {
            CommandlineFixupPlanFfi::Unmatched => 0,
            CommandlineFixupPlanFfi::ClearOverride => 1,
            CommandlineFixupPlanFfi::RestoreCmdFullPath => 2,
            CommandlineFixupPlanFfi::RestorePowershellFullPath => 3,
        }
    }

    /// The stable ABI number of the decision.
    pub fn code(self) -> (r: u32)
        ensures
            r == self.spec_code(),
    {
        match self {
            CommandlineFixupPlanFfi::Unmatched => 0,
            CommandlineFixupPlanFfi::ClearOverride => 1,
            CommandlineFixupPlanFfi::RestoreCmdFullPath => 2,
            CommandlineFixupPlanFfi::RestorePowershellFullPath => 3,
        }
    }
}

/// Version of the settings ABI.
pub const ABI_VERSION: u32 = 1;

pub fn abi_version() -> (r: u32)
    ensures
        r == ABI_VERSION,
{
    ABI_VERSION
}

/// An ABI boolean: 0 and 1 only; anything else is an invalid argument.
pub open spec fn spec_ffi_bool(value: u8) -> Result<bool, FfiStatus> {
    if value == 0 {
        Ok(false)
    } else if value == 1 {
        Ok(true)
    } else {
        Err(FfiStatus::InvalidArgument)
    }
}

pub fn ffi_bool(value: u8) -> (r: Result<bool, FfiStatus>)
    ensures
        r == spec_ffi_bool(value),
{
    match value {
        0 => Ok(false),
        1 => Ok(true),
        _ => Err(FfiStatus::InvalidArgument),
    }
}

/// The rename decision for four ABI booleans, checked in argument order.
pub open spec fn spec_workspace_rename_plan_from_abi(
    old_name_empty: u8,
    names_equal: u8,
    old_exists: u8,
    new_name_empty: u8,
) -> Result<WorkspaceRenamePlanFfi, FfiStatus> {
    match (
        spec_ffi_bool(old_name_empty),
        spec_ffi_bool(names_equal),
        spec_ffi_bool(old_exists),
        spec_ffi_bool(new_name_empty),
    ) {
        (Ok(a), Ok(b), Ok(c), Ok(d)) => Ok(
            spec_plan_to_ffi(spec_workspace_rename_plan(a, b, c, d)),
        ),
        _ => Err(FfiStatus::InvalidArgument),
    }
}

/// Decodes the four facts of a rename request and decides it.
pub fn workspace_rename_plan_from_abi(
    old_name_empty: u8,
    names_equal: u8,
    old_exists: u8,
    new_name_empty: u8,
) -> (r: Result<WorkspaceRenamePlanFfi, FfiStatus>)
    ensures
        r == spec_workspace_rename_plan_from_abi(
            old_name_empty,
            names_equal,
            old_exists,
            new_name_empty,
        ),
{
    let old_name_empty = match ffi_bool(old_name_empty) {
        Ok(value) => value,
        Err(status) => return Err(status),
    };
    let names_equal = match ffi_bool(names_equal) {
        Ok(value) => value,
        Err(status) => return Err(status),
    };
    let old_exists = match ffi_bool(old_exists) {
        Ok(value) => value,
        Err(status) => return Err(status),
    };
    let new_name_empty = match ffi_bool(new_name_empty) {
        Ok(value) => value,
        Err(status) => return Err(status),
    };
    let plan = workspace_rename_plan(old_name_empty, names_equal, old_exists, new_name_empty);
    Ok(WorkspaceRenamePlanFfi::from(plan))
}

} // verus!
