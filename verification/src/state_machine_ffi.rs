//! Argument decoding for the stateful parser seam.

use vstd::prelude::*;
use crate::vt::Parameters;
use crate::output_csi_push_sgr::flat_values;
use crate::parameter_view::presence_bits;

verus! {

/// Whether the parser accepts 8-bit C1 controls or runs in ANSI mode.
#[derive(Debug, Clone, Copy, PartialEq, Eq, Structural)]
pub enum ParserMode {
    AcceptC1,
    Ansi,
}

pub open spec fn spec_parser_mode(mode: u32) -> Option<ParserMode> {
    if mode == 0 {
        Some(ParserMode::AcceptC1)
    } else if mode == 1 {
        Some(ParserMode::Ansi)
    } else {
        None
    }
}

/// Decodes an ABI parser-mode number: 0 accepts C1, 1 is ANSI.
pub fn parser_mode(mode: u32) -> (r: Option<ParserMode>)
    ensures
        r == spec_parser_mode(mode),
{
    match mode {
        0 => Some(ParserMode::AcceptC1),
        1 => Some(ParserMode::Ansi),
        _ => None,
    }
}

/// The flat main values (omitted as 0) and their presence bits.
pub fn raw_parameters(parameters: &Parameters) -> (r: (Vec<i32>, Vec<u8>))
    ensures
        r.0@ == flat_values(parameters.spec_values()),
        r.1@ == presence_bits(parameters.spec_values()),
{
    let values = parameters.values();
    let n = values.len();
    let mut raw_values: Vec<i32> = Vec::new();
    let mut present: Vec<u8> = Vec::new();
    let mut index: usize = 0;
    while index < n
        invariant
            index <= n,
            n == values@.len(),
            raw_values@ == flat_values(values@.subrange(0, index as int)),
            present@ == presence_bits(values@.subrange(0, index as int)),
        decreases n - index,
    {
        let value = values[index];
        raw_values.push(value.unwrap_or(0));
        present.push(if value.is_some() { 1u8 } else { 0u8 });
        index = index + 1;
        assert(values@.subrange(0, index as int) =~= values@.subrange(0, index - 1).push(value));
        assert(flat_values(values@.subrange(0, index as int)) =~= flat_values(values@.subrange(0, index - 1)).push(crate::vt::or_default(value, 0)));
        assert(presence_bits(values@.subrange(0, index as int)) =~= presence_bits(values@.subrange(0, index - 1)).push(if value.is_some() { 1u8 } else { 0u8 }));
    }
    assert(values@.subrange(0, n as int) =~= values@);
    (raw_values, present)
}

} // verus!
