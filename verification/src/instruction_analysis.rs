use vstd::prelude::*;

use crate::unwind_rule::UnwindRuleLoongArch64;

verus! {

/// The unwind rule that an epilogue detected at `pc_offset` in
/// `function_bytes` implies. No epilogue is detected on LoongArch64.
pub fn unwind_rule_from_detected_epilogue(
    _function_bytes: &[u8],
    _pc_offset: usize,
) -> (r: Option<UnwindRuleLoongArch64>)
    ensures
        r is None,
{
    None
}

/// The unwind rule that a prologue detected around the address implies, given
/// the bytes from the function's start and those up to its end. No prologue
/// is detected on LoongArch64.
pub fn unwind_rule_from_detected_prologue(
    _slice_from_start: &[u8],
    _slice_to_end: &[u8],
) -> (r: Option<UnwindRuleLoongArch64>)
    ensures
        r is None,
{
    None
}

} // verus!
