//! XTPUSHSGR (`CSI # {` and its alias `CSI # p`) with its flat parameters.

use vstd::prelude::*;
use crate::parser_ffi::FfiStatus;
use crate::vt::{is_valid_identifier, or_default, vt_id_from_value, Parameters, VtId, MAX_PARAMETER_COUNT};

verus! {

/// Identifier of XTPUSHSGR, `CSI # {`.
pub const PUSH_SGR_ID: u64 = 0x7b23;

/// Identifier of its alias, `CSI # p`.
pub const PUSH_SGR_ALIAS_ID: u64 = 0x7023;

pub open spec fn is_push_sgr_id(id: u64) -> bool {
    id == PUSH_SGR_ID || id == PUSH_SGR_ALIAS_ID
}

/// Omitted parameters read as 0.
pub open spec fn flat_values(parameters: Seq<Option<i32>>) -> Seq<i32> {
    parameters.map_values(|v: Option<i32>| or_default(v, 0))
}

/// A push carries every parameter; any other sequence carries none.
pub open spec fn spec_push_sgr_values(id: u64, parameters: Seq<Option<i32>>) -> Seq<i32> {
    if is_push_sgr_id(id) {
        flat_values(parameters)
    } else {
        Seq::empty()
    }
}

/// The flat push-SGR payload of one dispatched CSI sequence.
pub fn push_sgr_values_from_csi(id: VtId, parameters: &Parameters) -> (r: Vec<i32>)
    ensures
        r@ == spec_push_sgr_values(id.spec_value(), parameters.spec_values()),
{
    let mut r: Vec<i32> = Vec::new();
    let value = id.value();
    if value != PUSH_SGR_ID && value != PUSH_SGR_ALIAS_ID {
        return r;
    }
    let n = parameters.size();
    let mut index: usize = 0;
    while index < n
        invariant
            index <= n,
            n == parameters.spec_values().len(),
            r@ == flat_values(parameters.spec_values().subrange(0, index as int)),
        decreases n - index,
    {
        r.push(parameters.at(index).unwrap_or(0));
        index = index + 1;
        assert(flat_values(parameters.spec_values().subrange(0, index as int)) =~= flat_values(
            parameters.spec_values().subrange(0, index - 1),
        ).push(or_default(parameters.spec_values()[index - 1], 0)));
    }
    assert(parameters.spec_values().subrange(0, n as int) =~= parameters.spec_values());
    r
}

/// Replays push-SGR classification for a flat value list: too many values or
/// an undecodable identifier is an invalid argument; a push yields the values
/// unchanged and any other sequence yields none.
pub fn output_csi_push_sgr_values(identifier: u64, values: &[i32]) -> (r: Result<Vec<i32>, FfiStatus>)
    ensures
        (values@.len() > MAX_PARAMETER_COUNT || !is_valid_identifier(identifier)) ==> r == Err::<
            Vec<i32>,
            FfiStatus,
        >(FfiStatus::InvalidArgument),
        (values@.len() <= MAX_PARAMETER_COUNT && is_valid_identifier(identifier)) ==> (r matches Ok(v)
            && v@ == (if is_push_sgr_id(identifier) { values@ } else { Seq::<i32>::empty() })),
{
    if values.len() > MAX_PARAMETER_COUNT {
        return Err(FfiStatus::InvalidArgument);
    }
    let id = match vt_id_from_value(identifier) {
        Some(id) => id,
        None => return Err(FfiStatus::InvalidArgument),
    };
    let mut wrapped: Vec<Option<i32>> = Vec::new();
    let n = values.len();
    let mut index: usize = 0;
    while index < n
        invariant
            index <= n,
            n == values@.len(),
            wrapped@.len() == index,
            forall|k: int| 0 <= k < index ==> #[trigger] wrapped@[k] == Some(values@[k]),
        decreases n - index,
    {
        wrapped.push(Some(values[index]));
        index = index + 1;
    }
    let parameters = Parameters::from_values(wrapped);
    let r = push_sgr_values_from_csi(id, &parameters);
    assert(flat_values(parameters.spec_values()) =~= values@);
    Ok(r)
}

/// Whether `required` values fit the caller's buffer of `capacity` values.
pub fn copy_status(required: usize, capacity: usize) -> (r: FfiStatus)
    ensures
        r == (if capacity < required { FfiStatus::BufferTooSmall } else { FfiStatus::Success }),
{
    if capacity < required {
        FfiStatus::BufferTooSmall
    } else {
        FfiStatus::Success
    }
}

} // verus!
