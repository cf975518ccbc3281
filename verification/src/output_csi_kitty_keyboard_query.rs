//! Kitty keyboard protocol query (`CSI ? u`) classification.

use vstd::prelude::*;
use crate::parser_ffi::FfiStatus;
use crate::vt::{is_valid_identifier, vt_id_from_value, VtId};

verus! {

/// Identifier of `CSI ? u`.
pub const KITTY_KEYBOARD_QUERY_ID: u64 = 0x753f;

#[derive(Debug, Clone, Copy, PartialEq, Eq, Structural)]
pub enum OutputCsiKittyKeyboardQueryKind {
    Unmatched,
    Query,
}

impl OutputCsiKittyKeyboardQueryKind {
    pub open spec fn spec_code(self) -> u32 {
        match self {
            OutputCsiKittyKeyboardQueryKind::Unmatched => 0,
            OutputCsiKittyKeyboardQueryKind::Query => 1,
        }
    }

    pub fn code(self) -> (r: u32)
        ensures
            r == self.spec_code(),
    {
        match self {
            OutputCsiKittyKeyboardQueryKind::Unmatched => 0,
            OutputCsiKittyKeyboardQueryKind::Query => 1,
        }
    }
}

#[derive(Debug, Clone, Copy, PartialEq, Eq, Structural)]
pub struct OutputCsiKittyKeyboardQueryPlan {
    pub kind: u32,
    pub reserved0: u32,
    pub reserved1: u32,
    pub reserved2: u32,
}

pub open spec fn spec_kitty_query_plan(id: u64) -> OutputCsiKittyKeyboardQueryPlan {
    OutputCsiKittyKeyboardQueryPlan {
        kind: if id == KITTY_KEYBOARD_QUERY_ID { 1 } else { 0 },
        reserved0: 0,
        reserved1: 0,
        reserved2: 0,
    }
}

impl Default for OutputCsiKittyKeyboardQueryPlan {
    fn default() -> (r: Self)
        ensures
            r == spec_kitty_query_plan(0),
    {
        OutputCsiKittyKeyboardQueryPlan {
            kind: OutputCsiKittyKeyboardQueryKind::Unmatched.code(),
            reserved0: 0,
            reserved1: 0,
            reserved2: 0,
        }
    }
}

impl OutputCsiKittyKeyboardQueryPlan {
    /// A query is recognized by its identifier alone.
    pub fn from_csi(id: VtId) -> (r: Self)
        ensures
            r == spec_kitty_query_plan(id.spec_value()),
    {
        if id.value() == KITTY_KEYBOARD_QUERY_ID {
            OutputCsiKittyKeyboardQueryPlan {
                kind: OutputCsiKittyKeyboardQueryKind::Query.code(),
                reserved0: 0,
                reserved1: 0,
                reserved2: 0,
            }
        } else {
            OutputCsiKittyKeyboardQueryPlan::default()
        }
    }
}

/// Plans a query from an identifier word.
pub fn output_csi_kitty_keyboard_query_plan(identifier: u64) -> (r: Result<
    OutputCsiKittyKeyboardQueryPlan,
    FfiStatus,
>)
    ensures
        !is_valid_identifier(identifier) ==> r == Err::<OutputCsiKittyKeyboardQueryPlan, FfiStatus>(
            FfiStatus::InvalidArgument,
        ),
        is_valid_identifier(identifier) ==> r == Ok::<OutputCsiKittyKeyboardQueryPlan, FfiStatus>(
            spec_kitty_query_plan(identifier),
        ),
{
    let id = match vt_id_from_value(identifier) {
        Some(id) => id,
        None => return Err(FfiStatus::InvalidArgument),
    };
    Ok(OutputCsiKittyKeyboardQueryPlan::from_csi(id))
}

} // verus!
