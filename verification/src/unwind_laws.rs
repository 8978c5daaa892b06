use vstd::prelude::*;

use crate::unwind_rule::UnwindRuleLoongArch64;
use crate::unwindregs::RegsModel;

verus! {

/// An execution that does not return a new return address leaves the
/// registers exactly as they were.
pub proof fn lemma_registers_kept_unless_unwound(
    rule: UnwindRuleLoongArch64,
    is_first_frame: bool,
    regs: RegsModel,
    ra_read: Result<u64, ()>,
    fp_read: Result<u64, ()>,
)
    ensures
        (rule.exec_outcome(is_first_frame, regs, ra_read, fp_read).0 matches Ok(Some(_)))
            || rule.exec_outcome(is_first_frame, regs, ra_read, fp_read).1 == regs,
{
}

/// A returned return address is never zero, and it is the `ra` of the
/// updated registers.
pub proof fn lemma_returned_address_is_new_ra(
    rule: UnwindRuleLoongArch64,
    is_first_frame: bool,
    regs: RegsModel,
    ra_read: Result<u64, ()>,
    fp_read: Result<u64, ()>,
)
    ensures
        rule.exec_outcome(is_first_frame, regs, ra_read, fp_read).0 matches Ok(Some(a)) ==> a != 0
            && rule.exec_outcome(is_first_frame, regs, ra_read, fp_read).1.ra == a,
{
}

/// Unwinding never moves the stack pointer down, and on every frame but the
/// first a successful unwind moves it strictly up, so that a walk of the
/// stack cannot loop.
pub proof fn lemma_stack_pointer_grows(
    rule: UnwindRuleLoongArch64,
    is_first_frame: bool,
    regs: RegsModel,
    ra_read: Result<u64, ()>,
    fp_read: Result<u64, ()>,
)
    ensures
        rule.exec_outcome(is_first_frame, regs, ra_read, fp_read).0 matches Ok(Some(_)) ==> {
            &&& rule.exec_outcome(is_first_frame, regs, ra_read, fp_read).1.sp >= regs.sp
            &&& !is_first_frame ==> rule.exec_outcome(is_first_frame, regs, ra_read, fp_read).1.sp
                > regs.sp
        },
{
}

/// The rules that unwind through the frame pointer only succeed when both
/// the frame pointer and the stack pointer move up.
pub proof fn lemma_frame_pointer_moves_up(
    rule: UnwindRuleLoongArch64,
    is_first_frame: bool,
    regs: RegsModel,
    ra_read: Result<u64, ()>,
    fp_read: Result<u64, ()>,
)
    requires
        rule is UseFramePointer || rule is UseFramepointerWithOffsets,
    ensures
        rule.exec_outcome(is_first_frame, regs, ra_read, fp_read).0 matches Ok(Some(_)) ==> {
            &&& rule.exec_outcome(is_first_frame, regs, ra_read, fp_read).1.sp > regs.sp
            &&& rule.exec_outcome(is_first_frame, regs, ra_read, fp_read).1.fp > regs.fp
        },
{
}

/// The rules that leave `ra` to the callee's register (`NoOp`, `OffsetSp`)
/// refuse every frame but the first with `DidNotAdvance`, and
/// `OffsetSpIfFirstFrameOtherwiseStackEndsHere` ends the stack there.
pub proof fn lemma_first_frame_only_rules(
    rule: UnwindRuleLoongArch64,
    regs: RegsModel,
    ra_read: Result<u64, ()>,
    fp_read: Result<u64, ()>,
)
    ensures
        (rule is NoOp || rule is OffsetSp) ==> rule.exec_outcome(false, regs, ra_read, fp_read) == (
            Err::<Option<u64>, crate::error::Error>(crate::error::Error::DidNotAdvance),
            regs,
        ),
        rule is OffsetSpIfFirstFrameOtherwiseStackEndsHere ==> rule.exec_outcome(
            false,
            regs,
            ra_read,
            fp_read,
        ) == (Ok::<Option<u64>, crate::error::Error>(None), regs),
{
}

/// Rules that take nothing from the stack give the same outcome whatever a
/// read of the stack would give.
pub proof fn lemma_no_read_no_dependence(
    rule: UnwindRuleLoongArch64,
    is_first_frame: bool,
    regs: RegsModel,
    ra_read: Result<u64, ()>,
    fp_read: Result<u64, ()>,
    other_ra_read: Result<u64, ()>,
    other_fp_read: Result<u64, ()>,
)
    requires
        rule.ra_read_location(is_first_frame, regs) is None,
    ensures
        rule.exec_outcome(is_first_frame, regs, ra_read, fp_read) == rule.exec_outcome(
            is_first_frame,
            regs,
            other_ra_read,
            other_fp_read,
        ),
{
}

} // verus!
