use vstd::prelude::*;

use crate::error::Error;
use crate::unwindregs::{RegsModel, UnwindRegsLoongArch64};

verus! {

/// A rule that recovers the caller's `(sp, fp, ra)` from the callee's
/// registers and the stack.
#[derive(Clone, Copy, Debug, PartialEq, Eq, Structural)]
pub enum UnwindRuleLoongArch64 {
    /// (sp, fp, ra) = (sp, fp, ra)
    /// Only possible for the first frame. Subsequent frames must get the
    /// return address from somewhere other than the ra register to avoid
    /// infinite loops.
    NoOp,
    /// (sp, fp, ra) = if is_first_frame (sp, fp, ra) else (fp, *(fp - 16), *(fp - 8))
    /// Used as a fallback rule.
    NoOpIfFirstFrameOtherwiseFp,
    /// (sp, fp, ra) = (sp + 16x, fp, ra)
    /// Only possible for the first frame. Subsequent frames must get the
    /// return address from somewhere other than the ra register to avoid
    /// infinite loops.
    OffsetSp { sp_offset_by_16: u16 },
    /// (sp, fp, ra) = (sp + 16x, fp, ra) if is_first_frame
    /// This rule reflects an ambiguity in DWARF CFI information. When the
    /// return address is "undefined" because it was omitted, it could mean
    /// "same value", but this is only allowed for the first frame.
    OffsetSpIfFirstFrameOtherwiseStackEndsHere { sp_offset_by_16: u16 },
    /// (sp, fp, ra) = (sp + 16x, fp, *(sp + 8y))
    OffsetSpAndRestoreRa { sp_offset_by_16: u16, ra_storage_offset_from_sp_by_8: i16 },
    /// (sp, fp, ra) = (sp + 16x, *(sp + 8y), *(sp + 8z))
    OffsetSpAndRestoreFpAndRa {
        sp_offset_by_16: u16,
        fp_storage_offset_from_sp_by_8: i16,
        ra_storage_offset_from_sp_by_8: i16,
    },
    /// (sp, fp, ra) = (fp, *(fp - 16), *(fp - 8))
    UseFramePointer,
    /// (sp, fp, ra) = (fp + 8x, *(fp + 8y), *(fp + 8z))
    UseFramepointerWithOffsets {
        sp_offset_from_fp_by_8: u16,
        fp_storage_offset_from_fp_by_8: i16,
        ra_storage_offset_from_fp_by_8: i16,
    },
}

/// `base + offset`, where that sum lies in the range of `u64`.
pub open spec fn offset_address(base: u64, offset: int) -> Option<u64> {
    if 0 <= base + offset <= u64::MAX {
        Some((base + offset) as u64)
    } else {
        None
    }
}

/// What a read of the stack at `location` gives to the unwinder.
pub open spec fn stack_value(read: Result<u64, ()>, location: u64) -> Result<u64, Error> {
    match read {
        Ok(v) => Ok(v),
        Err(_) => Err(Error::CouldNotReadStack(location)),
    }
}

/// The outcome of two reads: the value stored for ra at `ra_location`, then
/// the value stored for fp at `fp_location`.
pub open spec fn two_values(
    ra_read: Result<u64, ()>,
    ra_location: u64,
    fp_read: Result<u64, ()>,
    fp_location: u64,
) -> Result<(u64, u64), Error> {
    match stack_value(ra_read, ra_location) {
        Err(e) => Err(e),
        Ok(ra) => match stack_value(fp_read, fp_location) {
            Err(e) => Err(e),
            Ok(fp) => Ok((ra, fp)),
        },
    }
}

/// A frame recovered through a frame pointer: `new_sp` and the values read
/// for ra and fp. A zero frame pointer ends the stack; otherwise both the
/// frame pointer and the stack pointer must grow.
pub open spec fn frame_pointer_frame(
    regs: RegsModel,
    new_sp: u64,
    values: Result<(u64, u64), Error>,
) -> Result<Option<(u64, u64, u64)>, Error> {
    match values {
        Err(e) => Err(e),
        Ok((new_ra, new_fp)) => if new_fp == 0 {
            Ok(None)
        } else if new_fp <= regs.fp || new_sp <= regs.sp {
            Err(Error::FramepointerUnwindingMovedBackwards)
        } else {
            Ok(Some((new_ra, new_sp, new_fp)))
        },
    }
}

impl UnwindRuleLoongArch64 {
    /// The address at which `exec` reads the caller's return address, when it
    /// gets that far.
    pub open spec fn ra_read_location(self, is_first_frame: bool, regs: RegsModel) -> Option<u64> {
        match self {
            UnwindRuleLoongArch64::NoOpIfFirstFrameOtherwiseFp => {
                if !is_first_frame && regs.fp > regs.sp && regs.fp >= 16 {
                    Some((regs.fp - 8) as u64)
                } else {
                    None
                }
            },
            UnwindRuleLoongArch64::OffsetSpAndRestoreRa {
                sp_offset_by_16,
                ra_storage_offset_from_sp_by_8,
            } => {
                if offset_address(regs.sp, 16 * sp_offset_by_16) is Some {
                    offset_address(regs.sp, 8 * ra_storage_offset_from_sp_by_8)
                } else {
                    None
                }
            },
            UnwindRuleLoongArch64::OffsetSpAndRestoreFpAndRa {
                sp_offset_by_16,
                ra_storage_offset_from_sp_by_8,
                ..
            } => {
                if offset_address(regs.sp, 16 * sp_offset_by_16) is Some {
                    offset_address(regs.sp, 8 * ra_storage_offset_from_sp_by_8)
                } else {
                    None
                }
            },
            UnwindRuleLoongArch64::UseFramePointer => {
                if regs.fp >= 16 {
                    Some((regs.fp - 8) as u64)
                } else {
                    None
                }
            },
            UnwindRuleLoongArch64::UseFramepointerWithOffsets {
                sp_offset_from_fp_by_8,
                ra_storage_offset_from_fp_by_8,
                ..
            } => {
                if offset_address(regs.fp, 8 * sp_offset_from_fp_by_8) is Some {
                    offset_address(regs.fp, 8 * ra_storage_offset_from_fp_by_8)
                } else {
                    None
                }
            },
            _ => None,
        }
    }

    /// The address at which `exec` reads the caller's frame pointer, when it
    /// gets that far; `ra_read` is what the read of the return address gave.
    pub open spec fn fp_read_location(
        self,
        is_first_frame: bool,
        regs: RegsModel,
        ra_read: Result<u64, ()>,
    ) -> Option<u64> {
        if self.ra_read_location(is_first_frame, regs) is Some && ra_read is Ok {
            match self {
                UnwindRuleLoongArch64::NoOpIfFirstFrameOtherwiseFp => Some((regs.fp - 16) as u64),
                UnwindRuleLoongArch64::OffsetSpAndRestoreFpAndRa {
                    fp_storage_offset_from_sp_by_8,
                    ..
                } => offset_address(regs.sp, 8 * fp_storage_offset_from_sp_by_8),
                UnwindRuleLoongArch64::UseFramePointer => Some((regs.fp - 16) as u64),
                UnwindRuleLoongArch64::UseFramepointerWithOffsets {
                    fp_storage_offset_from_fp_by_8,
                    ..
                } => offset_address(regs.fp, 8 * fp_storage_offset_from_fp_by_8),
                _ => None,
            }
        } else {
            None
        }
    }

    /// The caller's `(ra, sp, fp)` that the rule computes, `None` where the
    /// stack ends, or the error that stops it. `ra_read` and `fp_read` are
    /// what the stack reads at `ra_read_location` and `fp_read_location`
    /// gave; they are not looked at where no such read takes place.
    pub open spec fn recovered_frame(
        self,
        is_first_frame: bool,
        regs: RegsModel,
        ra_read: Result<u64, ()>,
        fp_read: Result<u64, ()>,
    ) -> Result<Option<(u64, u64, u64)>, Error> {
        let (ra, sp, fp) = (regs.ra, regs.sp, regs.fp);
        match self {
            UnwindRuleLoongArch64::NoOp => {
                if !is_first_frame {
                    Err(Error::DidNotAdvance)
                } else {
                    Ok(Some((ra, sp, fp)))
                }
            },
            UnwindRuleLoongArch64::NoOpIfFirstFrameOtherwiseFp => {
                if is_first_frame {
                    Ok(Some((ra, sp, fp)))
                } else if fp <= sp {
                    Err(Error::FramepointerUnwindingMovedBackwards)
                } else if fp < 16 {
                    Err(Error::IntegerOverflow)
                } else {
                    match two_values(ra_read, (fp - 8) as u64, fp_read, (fp - 16) as u64) {
                        Err(e) => Err(e),
                        Ok((new_ra, new_fp)) => Ok(Some((new_ra, fp, new_fp))),
                    }
                }
            },
            UnwindRuleLoongArch64::OffsetSpIfFirstFrameOtherwiseStackEndsHere {
                sp_offset_by_16,
            } => {
                if !is_first_frame {
                    Ok(None)
                } else {
                    match offset_address(sp, 16 * sp_offset_by_16) {
                        None => Err(Error::IntegerOverflow),
                        Some(new_sp) => Ok(Some((ra, new_sp, fp))),
                    }
                }
            },
            UnwindRuleLoongArch64::OffsetSp { sp_offset_by_16 } => {
                if !is_first_frame {
                    Err(Error::DidNotAdvance)
                } else {
                    match offset_address(sp, 16 * sp_offset_by_16) {
                        None => Err(Error::IntegerOverflow),
                        Some(new_sp) => Ok(Some((ra, new_sp, fp))),
                    }
                }
            },
            UnwindRuleLoongArch64::OffsetSpAndRestoreRa {
                sp_offset_by_16,
                ra_storage_offset_from_sp_by_8,
            } => {
                match (
                    offset_address(sp, 16 * sp_offset_by_16),
                    offset_address(sp, 8 * ra_storage_offset_from_sp_by_8),
                ) {
                    (Some(new_sp), Some(ra_location)) => match stack_value(ra_read, ra_location) {
                        Err(e) => Err(e),
                        Ok(new_ra) => Ok(Some((new_ra, new_sp, fp))),
                    },
                    _ => Err(Error::IntegerOverflow),
                }
            },
            UnwindRuleLoongArch64::OffsetSpAndRestoreFpAndRa {
                sp_offset_by_16,
                fp_storage_offset_from_sp_by_8,
                ra_storage_offset_from_sp_by_8,
            } => {
                match (
                    offset_address(sp, 16 * sp_offset_by_16),
                    offset_address(sp, 8 * ra_storage_offset_from_sp_by_8),
                ) {
                    (Some(new_sp), Some(ra_location)) => match stack_value(ra_read, ra_location) {
                        Err(e) => Err(e),
                        Ok(new_ra) => match offset_address(sp, 8 * fp_storage_offset_from_sp_by_8) {
                            None => Err(Error::IntegerOverflow),
                            Some(fp_location) => match stack_value(fp_read, fp_location) {
                                Err(e) => Err(e),
                                Ok(new_fp) => Ok(Some((new_ra, new_sp, new_fp))),
                            },
                        },
                    },
                    _ => Err(Error::IntegerOverflow),
                }
            },
            UnwindRuleLoongArch64::UseFramePointer => {
                if fp < 16 {
                    Err(Error::IntegerOverflow)
                } else {
                    frame_pointer_frame(
                        regs,
                        fp,
                        two_values(ra_read, (fp - 8) as u64, fp_read, (fp - 16) as u64),
                    )
                }
            },
            UnwindRuleLoongArch64::UseFramepointerWithOffsets {
                sp_offset_from_fp_by_8,
                fp_storage_offset_from_fp_by_8,
                ra_storage_offset_from_fp_by_8,
            } => {
                match (
                    offset_address(fp, 8 * sp_offset_from_fp_by_8),
                    offset_address(fp, 8 * ra_storage_offset_from_fp_by_8),
                ) {
                    (Some(new_sp), Some(ra_location)) => match stack_value(ra_read, ra_location) {
                        Err(e) => Err(e),
                        Ok(new_ra) => match offset_address(fp, 8 * fp_storage_offset_from_fp_by_8) {
                            None => Err(Error::IntegerOverflow),
                            Some(fp_location) => frame_pointer_frame(
                                regs,
                                new_sp,
                                match stack_value(fp_read, fp_location) {
                                    Err(e) => Err(e),
                                    Ok(new_fp) => Ok((new_ra, new_fp)),
                                },
                            ),
                        },
                    },
                    _ => Err(Error::IntegerOverflow),
                }
            },
        }
    }

    /// What `exec` returns, and the registers it leaves: a recovered frame
    /// with a zero return address ends the stack, a later frame must move the
    /// stack pointer, and the registers change only when the result is
    /// `Ok(Some(new_ra))`.
    pub open spec fn exec_outcome(
        self,
        is_first_frame: bool,
        regs: RegsModel,
        ra_read: Result<u64, ()>,
        fp_read: Result<u64, ()>,
    ) -> (Result<Option<u64>, Error>, RegsModel) {
        match self.recovered_frame(is_first_frame, regs, ra_read, fp_read) {
            Err(e) => (Err(e), regs),
            Ok(None) => (Ok(None), regs),
            Ok(Some((new_ra, new_sp, new_fp))) => {
                if new_ra == 0 {
                    (Ok(None), regs)
                } else if !is_first_frame && new_sp == regs.sp {
                    (Err(Error::DidNotAdvance), regs)
                } else {
                    (Ok(Some(new_ra)), RegsModel { ra: new_ra, sp: new_sp, fp: new_fp })
                }
            },
        }
    }

    /// Executing the rule with the registers `regs` and the stack reader
    /// `read_stack` may return `res` and leave the registers `new_regs`: for
    /// some values that `read_stack` may give at the addresses that the rule
    /// reads, `exec_outcome` is `(res, new_regs)`.
    pub open spec fn executes_to<F: FnMut(u64) -> Result<u64, ()>>(
        self,
        is_first_frame: bool,
        regs: RegsModel,
        read_stack: F,
        res: Result<Option<u64>, Error>,
        new_regs: RegsModel,
    ) -> bool {
        exists|ra_read: Result<u64, ()>, fp_read: Result<u64, ()>|
            #![trigger self.exec_outcome(is_first_frame, regs, ra_read, fp_read)]
            {
                &&& self.ra_read_location(is_first_frame, regs) matches Some(a) ==> call_ensures(
                    read_stack,
                    (a,),
                    ra_read,
                )
                &&& self.fp_read_location(is_first_frame, regs, ra_read) matches Some(a)
                    ==> call_ensures(read_stack, (a,), fp_read)
                &&& self.exec_outcome(is_first_frame, regs, ra_read, fp_read) == (res, new_regs)
            }
    }

    /// The rule for stub functions: the registers stay as they are.
    pub fn rule_for_stub_functions() -> (r: Self)
        ensures
            r == UnwindRuleLoongArch64::NoOp,
    {
        UnwindRuleLoongArch64::NoOp
    }

    /// The rule at the first instruction of a function: the registers stay as
    /// they are.
    pub fn rule_for_function_start() -> (r: Self)
        ensures
            r == UnwindRuleLoongArch64::NoOp,
    {
        UnwindRuleLoongArch64::NoOp
    }

    /// The rule used when nothing better is known: frame pointer unwinding.
    pub fn fallback_rule() -> (r: Self)
        ensures
            r == UnwindRuleLoongArch64::UseFramePointer,
    {
        UnwindRuleLoongArch64::UseFramePointer
    }

    /// Executes the rule: recovers the caller's registers into `regs` and
    /// returns the caller's return address, `Ok(None)` where the stack ends,
    /// or the error that stopped the unwind. `read_stack` is asked for the
    /// stack word at an address, at most twice per call.
    pub fn exec<F>(
        self,
        is_first_frame: bool,
        regs: &mut UnwindRegsLoongArch64,
        read_stack: &mut F,
    ) -> (res: Result<Option<u64>, Error>)
        where
            F: FnMut(u64) -> Result<u64, ()>,
        requires
            forall|a: u64| call_requires(*old(read_stack), (a,)),
        ensures
            self.executes_to(is_first_frame, old(regs)@, *old(read_stack), res, final(regs)@),
    {
        let (frame, ra_read, fp_read) = self.recover(is_first_frame, regs, read_stack);
        let sp = regs.sp();
        let res = match frame {
            Err(e) => Err(e),
            Ok(None) => Ok(None),
            Ok(Some((new_ra, new_sp, new_fp))) => {
                if new_ra == 0 {
                    Ok(None)
                } else if !is_first_frame && new_sp == sp {
                    Err(Error::DidNotAdvance)
                } else {
                    regs.set_ra(new_ra);
                    regs.set_sp(new_sp);
                    regs.set_fp(new_fp);
                    Ok(Some(new_ra))
                }
            },
        };
        assert(self.exec_outcome(is_first_frame, old(regs)@, ra_read@, fp_read@) == (res, regs@));
        res
    }

    /// Follows the rule up to the recovered frame, reading the stack at most
    /// twice: first for ra, then for fp.
    fn recover<F>(
        self,
        is_first_frame: bool,
        regs: &UnwindRegsLoongArch64,
        read_stack: &mut F,
    ) -> (out: (Result<Option<(u64, u64, u64)>, Error>, Ghost<Result<u64, ()>>, Ghost<Result<u64, ()>>))
        where
            F: FnMut(u64) -> Result<u64, ()>,
        requires
            forall|a: u64| call_requires(*old(read_stack), (a,)),
        ensures
            self.ra_read_location(is_first_frame, regs@) matches Some(a) ==> call_ensures(
                *old(read_stack),
                (a,),
                out.1@,
            ),
            self.fp_read_location(is_first_frame, regs@, out.1@) matches Some(a) ==> call_ensures(
                *old(read_stack),
                (a,),
                out.2@,
            ),
            out.0 == self.recovered_frame(is_first_frame, regs@, out.1@, out.2@),
    {
        let ra = regs.ra();
        let sp = regs.sp();
        let fp = regs.fp();
        let ghost none: Result<u64, ()> = Err(());
        match self {
            UnwindRuleLoongArch64::NoOp => {
                if !is_first_frame {
                    return (Err(Error::DidNotAdvance), Ghost(none), Ghost(none));
                }
                (Ok(Some((ra, sp, fp))), Ghost(none), Ghost(none))
            },
            UnwindRuleLoongArch64::NoOpIfFirstFrameOtherwiseFp => {
                if is_first_frame {
                    return (Ok(Some((ra, sp, fp))), Ghost(none), Ghost(none));
                }
                let new_sp = fp;
                if new_sp <= sp {
                    return (
                        Err(Error::FramepointerUnwindingMovedBackwards),
                        Ghost(none),
                        Ghost(none),
                    );
                }
                let ra_location = match fp.checked_sub(8) {
                    Some(l) => l,
                    None => return (Err(Error::IntegerOverflow), Ghost(none), Ghost(none)),
                };
                let fp_location = match fp.checked_sub(16) {
                    Some(l) => l,
                    None => return (Err(Error::IntegerOverflow), Ghost(none), Ghost(none)),
                };
                let (r1, g1) = Self::read_at(read_stack, ra_location);
                let new_ra = match r1 {
                    Ok(v) => v,
                    Err(e) => return (Err(e), g1, Ghost(none)),
                };
                let (r2, g2) = Self::read_at(read_stack, fp_location);
                let new_fp = match r2 {
                    Ok(v) => v,
                    Err(e) => return (Err(e), g1, g2),
                };
                (Ok(Some((new_ra, new_sp, new_fp))), g1, g2)
            },
            UnwindRuleLoongArch64::OffsetSpIfFirstFrameOtherwiseStackEndsHere {
                sp_offset_by_16,
            } => {
                if !is_first_frame {
                    return (Ok(None), Ghost(none), Ghost(none));
                }
                let sp_offset = sp_offset_by_16 as u64 * 16;
                match sp.checked_add(sp_offset) {
                    Some(new_sp) => (Ok(Some((ra, new_sp, fp))), Ghost(none), Ghost(none)),
                    None => (Err(Error::IntegerOverflow), Ghost(none), Ghost(none)),
                }
            },
            UnwindRuleLoongArch64::OffsetSp { sp_offset_by_16 } => {
                if !is_first_frame {
                    return (Err(Error::DidNotAdvance), Ghost(none), Ghost(none));
                }
                let sp_offset = sp_offset_by_16 as u64 * 16;
                match sp.checked_add(sp_offset) {
                    Some(new_sp) => (Ok(Some((ra, new_sp, fp))), Ghost(none), Ghost(none)),
                    None => (Err(Error::IntegerOverflow), Ghost(none), Ghost(none)),
                }
            },
            UnwindRuleLoongArch64::OffsetSpAndRestoreRa {
                sp_offset_by_16,
                ra_storage_offset_from_sp_by_8,
            } => {
                let sp_offset = sp_offset_by_16 as u64 * 16;
                let new_sp = match sp.checked_add(sp_offset) {
                    Some(v) => v,
                    None => return (Err(Error::IntegerOverflow), Ghost(none), Ghost(none)),
                };
                let ra_storage_offset = ra_storage_offset_from_sp_by_8 as i64 * 8;
                let ra_location = match sp.checked_add_signed(ra_storage_offset) {
                    Some(l) => l,
                    None => return (Err(Error::IntegerOverflow), Ghost(none), Ghost(none)),
                };
                let (r1, g1) = Self::read_at(read_stack, ra_location);
                match r1 {
                    Ok(new_ra) => (Ok(Some((new_ra, new_sp, fp))), g1, Ghost(none)),
                    Err(e) => (Err(e), g1, Ghost(none)),
                }
            },
            UnwindRuleLoongArch64::OffsetSpAndRestoreFpAndRa {
                sp_offset_by_16,
                fp_storage_offset_from_sp_by_8,
                ra_storage_offset_from_sp_by_8,
            } => {
                let sp_offset = sp_offset_by_16 as u64 * 16;
                let new_sp = match sp.checked_add(sp_offset) {
                    Some(v) => v,
                    None => return (Err(Error::IntegerOverflow), Ghost(none), Ghost(none)),
                };
                let ra_storage_offset = ra_storage_offset_from_sp_by_8 as i64 * 8;
                let ra_location = match sp.checked_add_signed(ra_storage_offset) {
                    Some(l) => l,
                    None => return (Err(Error::IntegerOverflow), Ghost(none), Ghost(none)),
                };
                let (r1, g1) = Self::read_at(read_stack, ra_location);
                let new_ra = match r1 {
                    Ok(v) => v,
                    Err(e) => return (Err(e), g1, Ghost(none)),
                };
                let fp_storage_offset = fp_storage_offset_from_sp_by_8 as i64 * 8;
                let fp_location = match sp.checked_add_signed(fp_storage_offset) {
                    Some(l) => l,
                    None => return (Err(Error::IntegerOverflow), g1, Ghost(none)),
                };
                let (r2, g2) = Self::read_at(read_stack, fp_location);
                match r2 {
                    Ok(new_fp) => (Ok(Some((new_ra, new_sp, new_fp))), g1, g2),
                    Err(e) => (Err(e), g1, g2),
                }
            },
            UnwindRuleLoongArch64::UseFramePointer => {
                // LoongArch64 frame-based functions set fp to the caller's sp after saving
                // the caller's fp and ra. Therefore the caller's fp is at fp - 16, the
                // return address is at fp - 8, and the caller's sp is fp itself.
                let new_sp = fp;
                let ra_location = match fp.checked_sub(8) {
                    Some(l) => l,
                    None => return (Err(Error::IntegerOverflow), Ghost(none), Ghost(none)),
                };
                let fp_location = match fp.checked_sub(16) {
                    Some(l) => l,
                    None => return (Err(Error::IntegerOverflow), Ghost(none), Ghost(none)),
                };
                let (r1, g1) = Self::read_at(read_stack, ra_location);
                let new_ra = match r1 {
                    Ok(v) => v,
                    Err(e) => return (Err(e), g1, Ghost(none)),
                };
                let (r2, g2) = Self::read_at(read_stack, fp_location);
                let new_fp = match r2 {
                    Ok(v) => v,
                    Err(e) => return (Err(e), g1, g2),
                };
                if new_fp == 0 {
                    return (Ok(None), g1, g2);
                }
                if new_fp <= fp || new_sp <= sp {
                    return (Err(Error::FramepointerUnwindingMovedBackwards), g1, g2);
                }
                (Ok(Some((new_ra, new_sp, new_fp))), g1, g2)
            },
            UnwindRuleLoongArch64::UseFramepointerWithOffsets {
                sp_offset_from_fp_by_8,
                fp_storage_offset_from_fp_by_8,
                ra_storage_offset_from_fp_by_8,
            } => {
                let sp_offset_from_fp = sp_offset_from_fp_by_8 as u64 * 8;
                let new_sp = match fp.checked_add(sp_offset_from_fp) {
                    Some(v) => v,
                    None => return (Err(Error::IntegerOverflow), Ghost(none), Ghost(none)),
                };
                let ra_storage_offset = ra_storage_offset_from_fp_by_8 as i64 * 8;
                let ra_location = match fp.checked_add_signed(ra_storage_offset) {
                    Some(l) => l,
                    None => return (Err(Error::IntegerOverflow), Ghost(none), Ghost(none)),
                };
                let (r1, g1) = Self::read_at(read_stack, ra_location);
                let new_ra = match r1 {
                    Ok(v) => v,
                    Err(e) => return (Err(e), g1, Ghost(none)),
                };
                let fp_storage_offset = fp_storage_offset_from_fp_by_8 as i64 * 8;
                let fp_location = match fp.checked_add_signed(fp_storage_offset) {
                    Some(l) => l,
                    None => return (Err(Error::IntegerOverflow), g1, Ghost(none)),
                };
                let (r2, g2) = Self::read_at(read_stack, fp_location);
                let new_fp = match r2 {
                    Ok(v) => v,
                    Err(e) => return (Err(e), g1, g2),
                };
                if new_fp == 0 {
                    return (Ok(None), g1, g2);
                }
                if new_fp <= fp || new_sp <= sp {
                    return (Err(Error::FramepointerUnwindingMovedBackwards), g1, g2);
                }
                (Ok(Some((new_ra, new_sp, new_fp))), g1, g2)
            },
        }
    }

    /// Reads the stack at `location`, mapping a failed read to
    /// `CouldNotReadStack(location)`.
    fn read_at<F>(read_stack: &mut F, location: u64) -> (out: (Result<u64, Error>, Ghost<Result<u64, ()>>))
        where
            F: FnMut(u64) -> Result<u64, ()>,
        requires
            call_requires(*old(read_stack), (location,)),
        ensures
            call_ensures(*old(read_stack), (location,), out.1@),
            out.0 == stack_value(out.1@, location),
            *final(read_stack) == *old(read_stack),
    {
        let r = read_stack(location);
        let ghost g = r;
        match r {
            Ok(v) => (Ok(v), Ghost(g)),
            Err(_) => (Err(Error::CouldNotReadStack(location)), Ghost(g)),
        }
    }
}

} // verus!
