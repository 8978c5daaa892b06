use vstd::prelude::*;

use crate::error::Error;
use crate::unwind_rule::UnwindRuleLoongArch64;
use crate::unwindregs::RegsModel;

verus! {

// Each law below states what executing one kind of rule gives, in the terms
// of the rule's doc formula: the addresses read and the registers left, as
// arithmetic on the callee's registers and the words read there.
/// `exec` returns `ra` and leaves the registers `(ra, sp, fp)`.
pub open spec fn unwound_to(ra: u64, sp: u64, fp: u64) -> (Result<Option<u64>, Error>, RegsModel) {
    (Ok(Some(ra)), RegsModel { ra, sp, fp })
}

/// `exec` ends the stack and leaves the registers as they were.
pub open spec fn stack_ended(regs: RegsModel) -> (Result<Option<u64>, Error>, RegsModel) {
    (Ok(None), regs)
}

/// `exec` fails with `e` and leaves the registers as they were.
pub open spec fn failed_with(e: Error, regs: RegsModel) -> (Result<Option<u64>, Error>, RegsModel) {
    (Err(e), regs)
}

/// (sp, fp, ra) = (sp, fp, ra), on the first frame only; nothing is read.
pub proof fn lemma_noop_formula(
    is_first_frame: bool,
    regs: RegsModel,
    ra_read: Result<u64, ()>,
    fp_read: Result<u64, ()>,
)
    ensures
        UnwindRuleLoongArch64::NoOp.ra_read_location(is_first_frame, regs) is None,
        UnwindRuleLoongArch64::NoOp.exec_outcome(is_first_frame, regs, ra_read, fp_read) == (if !is_first_frame {
            failed_with(Error::DidNotAdvance, regs)
        } else if regs.ra == 0 {
            stack_ended(regs)
        } else {
            unwound_to(regs.ra, regs.sp, regs.fp)
        }),
{
}

/// On the first frame the registers stay; on a later frame
/// (sp, fp, ra) = (fp, *(fp - 16), *(fp - 8)), where fp lies above sp.
pub proof fn lemma_noop_or_fp_formula(
    is_first_frame: bool,
    regs: RegsModel,
    a: u64,
    b: u64,
)
    ensures
        ({
            let rule = UnwindRuleLoongArch64::NoOpIfFirstFrameOtherwiseFp;
            let out = rule.exec_outcome(is_first_frame, regs, Ok(a), Ok(b));
            &&& is_first_frame ==> rule.ra_read_location(is_first_frame, regs) is None && out == (
            if regs.ra == 0 {
                stack_ended(regs)
            } else {
                unwound_to(regs.ra, regs.sp, regs.fp)
            })
            &&& !is_first_frame && regs.fp <= regs.sp ==> out == failed_with(
                Error::FramepointerUnwindingMovedBackwards,
                regs,
            )
            &&& !is_first_frame && regs.sp < regs.fp < 16 ==> out == failed_with(
                Error::IntegerOverflow,
                regs,
            )
            &&& !is_first_frame && regs.fp > regs.sp && regs.fp >= 16 ==> {
                &&& rule.ra_read_location(is_first_frame, regs) == Some((regs.fp - 8) as u64)
                &&& rule.fp_read_location(is_first_frame, regs, Ok(a)) == Some(
                    (regs.fp - 16) as u64,
                )
                &&& out == (if a == 0 {
                    stack_ended(regs)
                } else {
                    unwound_to(a, regs.fp, b)
                })
            }
        }),
{
}

/// (sp, fp, ra) = (sp + 16x, fp, ra), on the first frame only; nothing is
/// read. `OffsetSpIfFirstFrameOtherwiseStackEndsHere` does the same on the
/// first frame and ends the stack on later frames.
pub proof fn lemma_offset_sp_formula(
    sp_offset_by_16: u16,
    is_first_frame: bool,
    regs: RegsModel,
    ra_read: Result<u64, ()>,
    fp_read: Result<u64, ()>,
)
    ensures
        ({
            let first_frame = if regs.sp + 16 * sp_offset_by_16 > u64::MAX {
                failed_with(Error::IntegerOverflow, regs)
            } else if regs.ra == 0 {
                stack_ended(regs)
            } else {
                unwound_to(regs.ra, (regs.sp + 16 * sp_offset_by_16) as u64, regs.fp)
            };
            let offset_sp = UnwindRuleLoongArch64::OffsetSp { sp_offset_by_16 };
            let ends_here = UnwindRuleLoongArch64::OffsetSpIfFirstFrameOtherwiseStackEndsHere {
                sp_offset_by_16,
            };
            &&& offset_sp.ra_read_location(is_first_frame, regs) is None
            &&& ends_here.ra_read_location(is_first_frame, regs) is None
            &&& offset_sp.exec_outcome(is_first_frame, regs, ra_read, fp_read) == (
            if is_first_frame {
                first_frame
            } else {
                failed_with(Error::DidNotAdvance, regs)
            })
            &&& ends_here.exec_outcome(is_first_frame, regs, ra_read, fp_read) == (
            if is_first_frame {
                first_frame
            } else {
                stack_ended(regs)
            })
        }),
{
}

/// (sp, fp, ra) = (sp + 16x, fp, *(sp + 8z)), where the addresses lie in
/// the range of `u64`.
pub proof fn lemma_restore_ra_formula(
    x: u16,
    z: i16,
    is_first_frame: bool,
    regs: RegsModel,
    a: u64,
    b: u64,
)
    requires
        regs.sp + 16 * x <= u64::MAX,
        0 <= regs.sp + 8 * z <= u64::MAX,
    ensures
        ({
            let rule = UnwindRuleLoongArch64::OffsetSpAndRestoreRa {
                sp_offset_by_16: x,
                ra_storage_offset_from_sp_by_8: z,
            };
            &&& rule.ra_read_location(is_first_frame, regs) == Some((regs.sp + 8 * z) as u64)
            &&& rule.fp_read_location(is_first_frame, regs, Ok(a)) is None
            &&& rule.exec_outcome(is_first_frame, regs, Ok(a), Ok(b)) == (if a == 0 {
                stack_ended(regs)
            } else if !is_first_frame && x == 0 {
                failed_with(Error::DidNotAdvance, regs)
            } else {
                unwound_to(a, (regs.sp + 16 * x) as u64, regs.fp)
            })
        }),
{
}

/// (sp, fp, ra) = (sp + 16x, *(sp + 8y), *(sp + 8z)), where the addresses
/// lie in the range of `u64`; ra is read first.
pub proof fn lemma_restore_fp_and_ra_formula(
    x: u16,
    y: i16,
    z: i16,
    is_first_frame: bool,
    regs: RegsModel,
    a: u64,
    b: u64,
)
    requires
        regs.sp + 16 * x <= u64::MAX,
        0 <= regs.sp + 8 * y <= u64::MAX,
        0 <= regs.sp + 8 * z <= u64::MAX,
    ensures
        ({
            let rule = UnwindRuleLoongArch64::OffsetSpAndRestoreFpAndRa {
                sp_offset_by_16: x,
                fp_storage_offset_from_sp_by_8: y,
                ra_storage_offset_from_sp_by_8: z,
            };
            &&& rule.ra_read_location(is_first_frame, regs) == Some((regs.sp + 8 * z) as u64)
            &&& rule.fp_read_location(is_first_frame, regs, Ok(a)) == Some(
                (regs.sp + 8 * y) as u64,
            )
            &&& rule.exec_outcome(is_first_frame, regs, Ok(a), Ok(b)) == (if a == 0 {
                stack_ended(regs)
            } else if !is_first_frame && x == 0 {
                failed_with(Error::DidNotAdvance, regs)
            } else {
                unwound_to(a, (regs.sp + 16 * x) as u64, b)
            })
        }),
{
}

/// (sp, fp, ra) = (fp, *(fp - 16), *(fp - 8)); a zero caller fp ends the
/// stack, and otherwise both fp and sp must move up.
pub proof fn lemma_use_frame_pointer_formula(
    is_first_frame: bool,
    regs: RegsModel,
    a: u64,
    b: u64,
)
    ensures
        ({
            let rule = UnwindRuleLoongArch64::UseFramePointer;
            let out = rule.exec_outcome(is_first_frame, regs, Ok(a), Ok(b));
            &&& regs.fp < 16 ==> out == failed_with(Error::IntegerOverflow, regs)
            &&& regs.fp >= 16 ==> {
                &&& rule.ra_read_location(is_first_frame, regs) == Some((regs.fp - 8) as u64)
                &&& rule.fp_read_location(is_first_frame, regs, Ok(a)) == Some(
                    (regs.fp - 16) as u64,
                )
                &&& out == (if b == 0 {
                    stack_ended(regs)
                } else if b <= regs.fp || regs.fp <= regs.sp {
                    failed_with(Error::FramepointerUnwindingMovedBackwards, regs)
                } else if a == 0 {
                    stack_ended(regs)
                } else {
                    unwound_to(a, regs.fp, b)
                })
            }
        }),
{
}

/// (sp, fp, ra) = (fp + 8x, *(fp + 8y), *(fp + 8z)), where the addresses
/// lie in the range of `u64`; a zero caller fp ends the stack, and otherwise
/// both fp and sp must move up.
pub proof fn lemma_frame_pointer_with_offsets_formula(
    x: u16,
    y: i16,
    z: i16,
    is_first_frame: bool,
    regs: RegsModel,
    a: u64,
    b: u64,
)
    requires
        regs.fp + 8 * x <= u64::MAX,
        0 <= regs.fp + 8 * y <= u64::MAX,
        0 <= regs.fp + 8 * z <= u64::MAX,
    ensures
        ({
            let rule = UnwindRuleLoongArch64::UseFramepointerWithOffsets {
                sp_offset_from_fp_by_8: x,
                fp_storage_offset_from_fp_by_8: y,
                ra_storage_offset_from_fp_by_8: z,
            };
            &&& rule.ra_read_location(is_first_frame, regs) == Some((regs.fp + 8 * z) as u64)
            &&& rule.fp_read_location(is_first_frame, regs, Ok(a)) == Some(
                (regs.fp + 8 * y) as u64,
            )
            &&& rule.exec_outcome(is_first_frame, regs, Ok(a), Ok(b)) == (if b == 0 {
                stack_ended(regs)
            } else if b <= regs.fp || regs.fp + 8 * x <= regs.sp {
                failed_with(Error::FramepointerUnwindingMovedBackwards, regs)
            } else if a == 0 {
                stack_ended(regs)
            } else {
                unwound_to(a, (regs.fp + 8 * x) as u64, b)
            })
        }),
{
}

/// A failed read stops the rule with `CouldNotReadStack` at the address that
/// was read, and the registers stay.
pub proof fn lemma_failed_read_is_reported(
    rule: UnwindRuleLoongArch64,
    is_first_frame: bool,
    regs: RegsModel,
    a: u64,
)
    ensures
        rule.ra_read_location(is_first_frame, regs) matches Some(l) ==> rule.exec_outcome(
            is_first_frame,
            regs,
            Err(()),
            Err(()),
        ) == failed_with(Error::CouldNotReadStack(l), regs),
        rule.fp_read_location(is_first_frame, regs, Ok(a)) matches Some(l) ==> rule.exec_outcome(
            is_first_frame,
            regs,
            Ok(a),
            Err(()),
        ) == failed_with(Error::CouldNotReadStack(l), regs),
{
}

} // verus!
