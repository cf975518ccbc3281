//! Lossless flattening of a parameter list, with sub-parameters, into flat
//! arrays for callback consumers.

use vstd::prelude::*;
use crate::vt::{or_default, Parameters};
use crate::output_csi_push_sgr::flat_values;

verus! {

/// Presence bits: 1 for a given value, 0 for an omitted one.
pub open spec fn presence_bits(values: Seq<Option<i32>>) -> Seq<u8> {
    values.map_values(|v: Option<i32>| if v.is_some() { 1u8 } else { 0u8 })
}

/// The sub-parameters of the first `n` main parameters, concatenated in order.
pub open spec fn joined_sub_params(parameters: Parameters, n: nat) -> Seq<Option<i32>>
    decreases n,
{
    if n == 0 {
        Seq::empty()
    } else {
        joined_sub_params(parameters, (n - 1) as nat) + parameters.spec_sub_params(n - 1)
    }
}

/// Flat arrays describing a parameter list: values with presence bits, all
/// sub-parameters concatenated with presence bits, and for each main
/// parameter the offset and count of its sub-parameters.
#[derive(Debug, PartialEq, Eq)]
pub struct ParameterView {
    pub values: Vec<i32>,
    pub present: Vec<u8>,
    pub sub_values: Vec<i32>,
    pub sub_present: Vec<u8>,
    pub sub_offsets: Vec<usize>,
    pub sub_counts: Vec<usize>,
}

/// The exact flat form of `parameters`; omitted values read as 0.
pub open spec fn is_view_of(view: ParameterView, parameters: Parameters) -> bool {
    let n = parameters.spec_values().len();
    let joined = joined_sub_params(parameters, n);
    &&& view.values@ == flat_values(parameters.spec_values())
    &&& view.present@ == presence_bits(parameters.spec_values())
    &&& view.sub_values@ == flat_values(joined)
    &&& view.sub_present@ == presence_bits(joined)
    &&& view.sub_offsets@.len() == n
    &&& view.sub_counts@.len() == n
    &&& forall|i: int| 0 <= i < n ==> #[trigger] view.sub_offsets@[i] == joined_sub_params(parameters, i as nat).len()
    &&& forall|i: int| 0 <= i < n ==> #[trigger] view.sub_counts@[i] == parameters.spec_sub_params(i).len()
}

/// The sub-parameters of the first `m` main parameters are a prefix of those
/// of the first `n`.
pub proof fn lemma_joined_prefix(parameters: Parameters, m: nat, n: nat)
    requires
        m <= n,
    ensures
        joined_sub_params(parameters, m).len() <= joined_sub_params(parameters, n).len(),
        joined_sub_params(parameters, n).subrange(0, joined_sub_params(parameters, m).len() as int)
            == joined_sub_params(parameters, m),
    decreases n - m,
{
    if m < n {
        lemma_joined_prefix(parameters, m, (n - 1) as nat);
        let a = joined_sub_params(parameters, (n - 1) as nat);
        let b = parameters.spec_sub_params(n - 1);
        let k = joined_sub_params(parameters, m).len() as int;
        assert((a + b).subrange(0, k) =~= a.subrange(0, k));
    } else {
        let j = joined_sub_params(parameters, n);
        assert(j.subrange(0, j.len() as int) =~= j);
    }
}

/// The flat form loses nothing: for every main parameter, its offset and
/// count cut exactly its own sub-parameters out of the concatenation, with
/// presence bits telling omitted values from given zeros.
pub proof fn law_parameter_view_is_lossless(view: ParameterView, parameters: Parameters)
    requires
        is_view_of(view, parameters),
    ensures
        forall|i: int|
            0 <= i < parameters.spec_values().len() ==> {
                let start = #[trigger] view.sub_offsets@[i] as int;
                let end = start + view.sub_counts@[i] as int;
                &&& 0 <= start <= end <= view.sub_values@.len()
                &&& view.sub_values@.subrange(start, end) == flat_values(
                    parameters.spec_sub_params(i),
                )
                &&& view.sub_present@.subrange(start, end) == presence_bits(
                    parameters.spec_sub_params(i),
                )
            },
{
    let n = parameters.spec_values().len();
    let joined = joined_sub_params(parameters, n);
    assert forall|i: int| 0 <= i < n implies {
        let start = #[trigger] view.sub_offsets@[i] as int;
        let end = start + view.sub_counts@[i] as int;
        &&& 0 <= start <= end <= view.sub_values@.len()
        &&& view.sub_values@.subrange(start, end) == flat_values(parameters.spec_sub_params(i))
        &&& view.sub_present@.subrange(start, end) == presence_bits(parameters.spec_sub_params(i))
    } by {
        lemma_joined_prefix(parameters, (i + 1) as nat, n);
        let before = joined_sub_params(parameters, i as nat);
        let sub = parameters.spec_sub_params(i);
        assert(joined_sub_params(parameters, (i + 1) as nat) == before + sub);
        let start = before.len() as int;
        let end = start + sub.len();
        assert(joined.subrange(start, end) =~= sub) by {
            assert(joined.subrange(0, end) == before + sub);
            assert forall|k: int| 0 <= k < sub.len() implies joined.subrange(start, end)[k] == sub[k] by {
                assert(joined.subrange(0, end)[start + k] == (before + sub)[start + k]);
            }
        }
        assert(view.sub_values@.subrange(start, end) =~= flat_values(sub));
        assert(view.sub_present@.subrange(start, end) =~= presence_bits(sub));
    }
}

impl ParameterView {
    pub fn from_parameters(parameters: &Parameters) -> (r: Self)
        ensures
            is_view_of(r, *parameters),
    {
        let values = parameters.values();
        let n = values.len();
        let mut raw_values: Vec<i32> = Vec::new();
        let mut present: Vec<u8> = Vec::new();
        let mut sub_values: Vec<i32> = Vec::new();
        let mut sub_present: Vec<u8> = Vec::new();
        let mut sub_offsets: Vec<usize> = Vec::new();
        let mut sub_counts: Vec<usize> = Vec::new();
        let ghost all = parameters.spec_values();
        let mut index: usize = 0;
        while index < n
            invariant
                index <= n,
                n == all.len(),
                values@ == all,
                all == parameters.spec_values(),
                raw_values@ == flat_values(all.subrange(0, index as int)),
                present@ == presence_bits(all.subrange(0, index as int)),
                sub_values@ == flat_values(joined_sub_params(*parameters, index as nat)),
                sub_present@ == presence_bits(joined_sub_params(*parameters, index as nat)),
                sub_offsets@.len() == index,
                sub_counts@.len() == index,
                forall|i: int| 0 <= i < index ==> #[trigger] sub_offsets@[i] == joined_sub_params(*parameters, i as nat).len(),
                forall|i: int| 0 <= i < index ==> #[trigger] sub_counts@[i] == parameters.spec_sub_params(i).len(),
            decreases n - index,
        {
            let value = values[index];
            raw_values.push(value.unwrap_or(0));
            present.push(if value.is_some() { 1u8 } else { 0u8 });
            sub_offsets.push(sub_values.len());
            let subs = parameters.sub_params_for(index);
            sub_counts.push(subs.len());
            let ghost before = joined_sub_params(*parameters, index as nat);
            let m = subs.len();
            let mut k: usize = 0;
            while k < m
                invariant
                    k <= m,
                    m == subs@.len(),
                    subs@ == parameters.spec_sub_params(index as int),
                    sub_values@ == flat_values(before + subs@.subrange(0, k as int)),
                    sub_present@ == presence_bits(before + subs@.subrange(0, k as int)),
                decreases m - k,
            {
                let sub = subs[k];
                sub_values.push(sub.unwrap_or(0));
                sub_present.push(if sub.is_some() { 1u8 } else { 0u8 });
                k = k + 1;
                assert(before + subs@.subrange(0, k as int) =~= (before + subs@.subrange(0, k - 1)).push(sub));
                assert(flat_values(before + subs@.subrange(0, k as int)) =~= flat_values(before + subs@.subrange(0, k - 1)).push(or_default(sub, 0)));
                assert(presence_bits(before + subs@.subrange(0, k as int)) =~= presence_bits(before + subs@.subrange(0, k - 1)).push(if sub.is_some() { 1u8 } else { 0u8 }));
            }
            assert(subs@.subrange(0, m as int) =~= subs@);
            index = index + 1;
            assert(all.subrange(0, index as int) =~= all.subrange(0, index - 1).push(value));
            assert(flat_values(all.subrange(0, index as int)) =~= flat_values(all.subrange(0, index - 1)).push(or_default(value, 0)));
            assert(presence_bits(all.subrange(0, index as int)) =~= presence_bits(all.subrange(0, index - 1)).push(if value.is_some() { 1u8 } else { 0u8 }));
        }
        assert(all.subrange(0, n as int) =~= all);
        ParameterView { values: raw_values, present, sub_values, sub_present, sub_offsets, sub_counts }
    }
}

} // verus!
