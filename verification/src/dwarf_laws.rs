use vstd::prelude::*;

use crate::dwarf::{
    cfa_offset_of, generic_unwind_outcome, translation, translation_overflows, CfaRule,
    RegisterRule, REG_FP, REG_SP,
};
use crate::error::Error;
use crate::unwind_rule::frame_pointer_frame;
use crate::unwindregs::RegsModel;

verus! {

/// The caller's value of a register whose rule is `rule`: the value read
/// from the stack where the row saves the register at a CFA offset, its
/// current value where the row leaves it (no rule, `Undefined`,
/// `SameValue`).
pub open spec fn restored_value(rule: Option<RegisterRule>, current: u64, read: u64) -> u64 {
    match cfa_offset_of(rule) {
        Ok(Some(_)) => read,
        _ => current,
    }
}

/// Where the row saves the register with this rule, `base + offset` plus
/// the register's CFA offset is a multiple of 8 and an address.
pub open spec fn saved_slot_ok(rule: Option<RegisterRule>, base: u64, offset: i64) -> bool {
    cfa_offset_of(rule) matches Ok(Some(r)) ==> {
        &&& (offset + r) % 8 == 0
        &&& 0 <= base + offset + r <= u64::MAX
    }
}

/// The address at which the row saves the register with this rule.
pub open spec fn saved_slot(rule: Option<RegisterRule>, base: u64, offset: i64) -> Option<u64> {
    match cfa_offset_of(rule) {
        Ok(Some(r)) => Some((base + offset + r) as u64),
        _ => None,
    }
}

/// A row whose CFA is sp + offset translates, where it translates and its
/// offsets are multiples of the rule's units, into a rule that does what the
/// row says: ra is read at CFA + its offset where the row saves it, then fp
/// likewise; the caller's sp is the CFA, and a register that the row does
/// not save keeps its value. A row that does not save ra only holds for the
/// first frame: on a later frame it ends the stack where ra is explicitly
/// `Undefined`, and is refused with `DidNotAdvance` otherwise.
pub proof fn lemma_sp_row_rule_follows_row(
    offset: i64,
    fp_rule: Option<RegisterRule>,
    ra_rule: Option<RegisterRule>,
    is_first_frame: bool,
    regs: RegsModel,
    ra_value: u64,
    fp_value: u64,
)
    requires
        !translation_overflows(
            CfaRule::RegisterAndOffset { register: REG_SP, offset },
            fp_rule,
            ra_rule,
        ),
        translation(CfaRule::RegisterAndOffset { register: REG_SP, offset }, fp_rule, ra_rule) is Ok,
        offset % 16 == 0,
        0 <= regs.sp + offset <= u64::MAX,
        saved_slot_ok(ra_rule, regs.sp, offset),
        saved_slot_ok(fp_rule, regs.sp, offset),
    ensures
        ({
            let rule = translation(
                CfaRule::RegisterAndOffset { register: REG_SP, offset },
                fp_rule,
                ra_rule,
            )->Ok_0;
            let frame = rule.recovered_frame(is_first_frame, regs, Ok(ra_value), Ok(fp_value));
            &&& rule.ra_read_location(is_first_frame, regs) == saved_slot(ra_rule, regs.sp, offset)
            &&& rule.fp_read_location(is_first_frame, regs, Ok(ra_value)) == saved_slot(
                fp_rule,
                regs.sp,
                offset,
            )
            &&& (is_first_frame || saved_slot(ra_rule, regs.sp, offset) is Some) ==> frame == Ok::<
                Option<(u64, u64, u64)>,
                Error,
            >(
                Some(
                    (
                        restored_value(ra_rule, regs.ra, ra_value),
                        (regs.sp + offset) as u64,
                        restored_value(fp_rule, regs.fp, fp_value),
                    ),
                ),
            )
            &&& (!is_first_frame && saved_slot(ra_rule, regs.sp, offset) is None) ==> frame == (
            if ra_rule == Some(RegisterRule::Undefined) {
                Ok::<Option<(u64, u64, u64)>, Error>(None)
            } else {
                Err::<Option<(u64, u64, u64)>, Error>(Error::DidNotAdvance)
            })
        }),
{
}

/// A row whose CFA is fp + offset translates, where it translates and its
/// offsets are multiples of 8, into a rule that reads ra and then fp at
/// CFA + their offsets (such a row saves both, or it does not translate)
/// and takes the CFA as the caller's sp, under the frame pointer checks.
pub proof fn lemma_fp_row_rule_follows_row(
    offset: i64,
    fp_rule: Option<RegisterRule>,
    ra_rule: Option<RegisterRule>,
    is_first_frame: bool,
    regs: RegsModel,
    ra_value: u64,
    fp_value: u64,
)
    requires
        !translation_overflows(
            CfaRule::RegisterAndOffset { register: REG_FP, offset },
            fp_rule,
            ra_rule,
        ),
        translation(CfaRule::RegisterAndOffset { register: REG_FP, offset }, fp_rule, ra_rule) is Ok,
        offset % 8 == 0,
        0 <= regs.fp + offset <= u64::MAX,
        saved_slot_ok(ra_rule, regs.fp, offset),
        saved_slot_ok(fp_rule, regs.fp, offset),
    ensures
        ({
            let rule = translation(
                CfaRule::RegisterAndOffset { register: REG_FP, offset },
                fp_rule,
                ra_rule,
            )->Ok_0;
            &&& saved_slot(ra_rule, regs.fp, offset) is Some
            &&& saved_slot(fp_rule, regs.fp, offset) is Some
            &&& rule.ra_read_location(is_first_frame, regs) == saved_slot(ra_rule, regs.fp, offset)
            &&& rule.fp_read_location(is_first_frame, regs, Ok(ra_value)) == saved_slot(
                fp_rule,
                regs.fp,
                offset,
            )
            &&& rule.recovered_frame(is_first_frame, regs, Ok(ra_value), Ok(fp_value))
                == frame_pointer_frame(
                regs,
                (regs.fp + offset) as u64,
                Ok((ra_value, fp_value)),
            )
        }),
{
}

/// The generic path changes the registers only when it succeeds, and on
/// every frame but the first a success moves the stack pointer up to the
/// CFA.
pub proof fn lemma_generic_path_moves_up(
    is_first_frame: bool,
    regs: RegsModel,
    cfa: Option<u64>,
    fp_eval: Option<u64>,
    ra_eval: Option<u64>,
)
    ensures
        (generic_unwind_outcome(is_first_frame, regs, cfa, fp_eval, ra_eval).0 is Ok)
            || generic_unwind_outcome(is_first_frame, regs, cfa, fp_eval, ra_eval).1 == regs,
        generic_unwind_outcome(is_first_frame, regs, cfa, fp_eval, ra_eval).0 is Ok
            ==> cfa is Some && generic_unwind_outcome(is_first_frame, regs, cfa, fp_eval, ra_eval).1.sp
            == cfa->0,
        generic_unwind_outcome(is_first_frame, regs, cfa, fp_eval, ra_eval).0 is Ok
            && !is_first_frame ==> generic_unwind_outcome(
            is_first_frame,
            regs,
            cfa,
            fp_eval,
            ra_eval,
        ).1.sp > regs.sp,
{
}

} // verus!
