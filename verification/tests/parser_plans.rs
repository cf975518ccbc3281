use lib::output_dcs::OutputDcsPlan;
use lib::output_osc::OutputOscPlan;
use lib::parser_ffi::FfiStatus;
use lib::pty_signal::{pty_signal_read_plan, PtySignalKind, PtySignalReadPlan};
use lib::settings_ffi::{
    abi_version, workspace_rename_plan_from_abi, FfiStatus as SettingsStatus,
    WorkspaceRenamePlanFfi,
};

#[test]
fn output_dcs_plan_layout_is_stable() {
    assert_eq!(std::mem::size_of::<OutputDcsPlan>(), 4);
    assert_eq!(std::mem::align_of::<OutputDcsPlan>(), 4);
}

#[test]
fn output_osc_plan_layout_is_stable() {
    assert_eq!(std::mem::size_of::<OutputOscPlan>(), 4);
    assert_eq!(std::mem::align_of::<OutputOscPlan>(), 4);
}

#[test]
fn ffi_replays_rust_signal_read_owner() {
    let plan = |id| pty_signal_read_plan(id).expect("known signal");
    assert_eq!(plan(1), PtySignalReadPlan { kind: PtySignalKind::ShowHideWindow.code(), payload_len: 2 });
    assert_eq!(plan(2), PtySignalReadPlan { kind: PtySignalKind::ClearBuffer.code(), payload_len: 2 });
    assert_eq!(plan(3), PtySignalReadPlan { kind: PtySignalKind::SetParent.code(), payload_len: 8 });
    assert_eq!(plan(8), PtySignalReadPlan { kind: PtySignalKind::ResizeWindow.code(), payload_len: 4 });
}

#[test]
fn ffi_rejects_unknown_signal_and_null_output() {
    assert_eq!(pty_signal_read_plan(4), Err(FfiStatus::InvalidArgument));
}

#[test]
fn abi_version_is_stable() {
    assert_eq!(abi_version(), 1);
}

#[test]
fn workspace_rename_contract_replays_native_decisions() {
    let plan = |a, b, c, d| workspace_rename_plan_from_abi(a, b, c, d).map(|p| p.code());
    assert_eq!(plan(1, 0, 1, 0), Ok(WorkspaceRenamePlanFfi::Noop.code()));
    assert_eq!(plan(0, 1, 1, 0), Ok(WorkspaceRenamePlanFfi::Noop.code()));
    assert_eq!(plan(0, 0, 0, 0), Ok(WorkspaceRenamePlanFfi::Noop.code()));
    assert_eq!(plan(0, 0, 1, 1), Ok(WorkspaceRenamePlanFfi::Remove.code()));
    assert_eq!(plan(0, 0, 1, 0), Ok(WorkspaceRenamePlanFfi::Rename.code()));
}

#[test]
fn workspace_rename_rejects_invalid_abi_inputs_fail_closed() {
    let invalid_inputs = [(2, 0, 1, 0), (0, 2, 1, 0), (0, 0, 2, 0), (0, 0, 1, 2)];
    for (old_empty, equal, exists, new_empty) in invalid_inputs {
        assert_eq!(
            workspace_rename_plan_from_abi(old_empty, equal, exists, new_empty),
            Err(SettingsStatus::InvalidArgument)
        );
    }
}
