use vstd::prelude::*;

use crate::arch::ArchLoongArch64;
use crate::error::{ConversionError, DwarfUnwinderError};
use crate::unwind_rule::UnwindRuleLoongArch64;
use crate::unwindregs::{RegsModel, UnwindRegsLoongArch64};

verus! {

/// DWARF register number of the return address register ra (r1).
pub const REG_RA: u16 = 1;

/// DWARF register number of the stack pointer sp (r3).
pub const REG_SP: u16 = 3;

/// DWARF register number of the frame pointer fp (r22 / s0).
pub const REG_FP: u16 = 22;

/// How the canonical frame address (CFA) of a row of DWARF call frame
/// information is computed. Registers are given by their DWARF number.
#[derive(Clone, Copy, Debug, PartialEq, Eq, Structural)]
pub enum CfaRule {
    /// The CFA is the given offset from the given register's value.
    RegisterAndOffset { register: u16, offset: i64 },
    /// The CFA is obtained by evaluating a DWARF expression.
    Expression,
}

/// How a register of the caller is recovered, as a row of DWARF call frame
/// information states it. Registers are given by their DWARF number.
#[derive(Clone, Copy, Debug, PartialEq, Eq, Structural)]
pub enum RegisterRule {
    /// The register has no recoverable value.
    Undefined,
    /// The register keeps its value.
    SameValue,
    /// The value is saved at CFA + N.
    Offset(i64),
    /// The value is CFA + N.
    ValOffset(i64),
    /// The value is in another register.
    Register(u16),
    /// The value is saved at the address a DWARF expression computes.
    Expression,
    /// The value is what a DWARF expression computes.
    ValExpression,
    /// The rule is defined by the augmenter.
    Architectural,
    /// The value is the given constant.
    Constant(u64),
}

/// The rule that `r` points to, if any.
pub open spec fn deref_rule(r: Option<&RegisterRule>) -> Option<RegisterRule> {
    match r {
        Some(rule) => Some(*rule),
        None => None,
    }
}

/// The offset from the CFA at which a register is saved: `None` where the
/// register is not saved (no rule, `Undefined`, `SameValue`).
pub open spec fn cfa_offset_of(rule: Option<RegisterRule>) -> Result<Option<i64>, ConversionError> {
    match rule {
        None => Ok(None),
        Some(RegisterRule::Undefined) => Ok(None),
        Some(RegisterRule::SameValue) => Ok(None),
        Some(RegisterRule::Offset(offset)) => Ok(Some(offset)),
        Some(_) => Err(ConversionError::RegisterNotStoredRelativeToCfa),
    }
}

/// Integer division rounding toward zero, as Rust's `/` on `i64` does.
pub open spec fn div_toward_zero(a: int, d: nat) -> int
    recommends
        d > 0,
{
    if a >= 0 {
        a / (d as int)
    } else {
        -((-a) / (d as int))
    }
}

pub open spec fn fits_u16(x: int) -> bool {
    0 <= x <= u16::MAX
}

pub open spec fn fits_i16(x: int) -> bool {
    i16::MIN <= x <= i16::MAX
}

pub open spec fn fits_i64(x: int) -> bool {
    i64::MIN <= x <= i64::MAX
}

/// The sp-based rule for a CFA at `sp + offset`, given the CFA offsets at
/// which ra and fp are saved.
pub open spec fn sp_based_rule(
    offset: i64,
    ra_rule: Option<RegisterRule>,
    ra_offset: Option<i64>,
    fp_offset: Option<i64>,
) -> Result<UnwindRuleLoongArch64, ConversionError> {
    let sp_offset_by_16 = div_toward_zero(offset as int, 16) as u16;
    match (ra_offset, fp_offset) {
        (None, Some(_)) => Err(ConversionError::RestoringFpButNotRa),
        (None, None) => match ra_rule {
            Some(RegisterRule::Undefined) => Ok(
                UnwindRuleLoongArch64::OffsetSpIfFirstFrameOtherwiseStackEndsHere { sp_offset_by_16 },
            ),
            _ => Ok(UnwindRuleLoongArch64::OffsetSp { sp_offset_by_16 }),
        },
        (Some(ra_cfa_offset), None) => {
            let ra_by_8 = div_toward_zero(offset + ra_cfa_offset, 8);
            if fits_i16(ra_by_8) {
                Ok(
                    UnwindRuleLoongArch64::OffsetSpAndRestoreRa {
                        sp_offset_by_16,
                        ra_storage_offset_from_sp_by_8: ra_by_8 as i16,
                    },
                )
            } else {
                Err(ConversionError::RaStorageOffsetDoesNotFit)
            }
        },
        (Some(ra_cfa_offset), Some(fp_cfa_offset)) => {
            let ra_by_8 = div_toward_zero(offset + ra_cfa_offset, 8);
            let fp_by_8 = div_toward_zero(offset + fp_cfa_offset, 8);
            if !fits_i16(ra_by_8) {
                Err(ConversionError::RaStorageOffsetDoesNotFit)
            } else if !fits_i16(fp_by_8) {
                Err(ConversionError::FpStorageOffsetDoesNotFit)
            } else {
                Ok(
                    UnwindRuleLoongArch64::OffsetSpAndRestoreFpAndRa {
                        sp_offset_by_16,
                        fp_storage_offset_from_sp_by_8: fp_by_8 as i16,
                        ra_storage_offset_from_sp_by_8: ra_by_8 as i16,
                    },
                )
            }
        },
    }
}

/// The fp-based rule for a CFA at `fp + offset`, given the CFA offsets at
/// which ra and fp are saved.
pub open spec fn fp_based_rule(offset: i64, ra_cfa_offset: i64, fp_cfa_offset: i64) -> Result<
    UnwindRuleLoongArch64,
    ConversionError,
> {
    if offset == 0 && fp_cfa_offset == -16 && ra_cfa_offset == -8 {
        Ok(UnwindRuleLoongArch64::UseFramePointer)
    } else {
        let sp_by_8 = div_toward_zero(offset as int, 8);
        let ra_by_8 = div_toward_zero(offset + ra_cfa_offset, 8);
        let fp_by_8 = div_toward_zero(offset + fp_cfa_offset, 8);
        if !fits_u16(sp_by_8) {
            Err(ConversionError::SpOffsetFromFpDoesNotFit)
        } else if !fits_i16(ra_by_8) {
            Err(ConversionError::RaStorageOffsetDoesNotFit)
        } else if !fits_i16(fp_by_8) {
            Err(ConversionError::FpStorageOffsetDoesNotFit)
        } else {
            Ok(
                UnwindRuleLoongArch64::UseFramepointerWithOffsets {
                    sp_offset_from_fp_by_8: sp_by_8 as u16,
                    fp_storage_offset_from_fp_by_8: fp_by_8 as i16,
                    ra_storage_offset_from_fp_by_8: ra_by_8 as i16,
                },
            )
        }
    }
}

/// The unwind rule that a row of call frame information with these CFA, fp
/// and ra rules stands for, or why there is none.
pub open spec fn translation(
    cfa_rule: CfaRule,
    fp_rule: Option<RegisterRule>,
    ra_rule: Option<RegisterRule>,
) -> Result<UnwindRuleLoongArch64, ConversionError> {
    match cfa_rule {
        CfaRule::Expression => Err(ConversionError::CfaIsExpression),
        CfaRule::RegisterAndOffset { register, offset } => {
            if register == REG_SP {
                if !fits_u16(div_toward_zero(offset as int, 16)) {
                    Err(ConversionError::SpOffsetDoesNotFit)
                } else {
                    match cfa_offset_of(ra_rule) {
                        Err(e) => Err(e),
                        Ok(ra_offset) => match cfa_offset_of(fp_rule) {
                            Err(e) => Err(e),
                            Ok(fp_offset) => sp_based_rule(offset, ra_rule, ra_offset, fp_offset),
                        },
                    }
                }
            } else if register == REG_FP {
                match cfa_offset_of(ra_rule) {
                    Err(e) => Err(e),
                    Ok(None) => Err(ConversionError::FramePointerRuleDoesNotRestoreRa),
                    Ok(Some(ra_cfa_offset)) => match cfa_offset_of(fp_rule) {
                        Err(e) => Err(e),
                        Ok(None) => Err(ConversionError::FramePointerRuleDoesNotRestoreFp),
                        Ok(Some(fp_cfa_offset)) => fp_based_rule(offset, ra_cfa_offset, fp_cfa_offset),
                    },
                }
            } else {
                Err(ConversionError::CfaIsOffsetFromUnknownRegister)
            }
        },
    }
}

/// The rows on which the translation adds a register's CFA offset to the
/// CFA offset outside the range of `i64`, where the addition overflows.
pub open spec fn translation_overflows(
    cfa_rule: CfaRule,
    fp_rule: Option<RegisterRule>,
    ra_rule: Option<RegisterRule>,
) -> bool {
    match cfa_rule {
        CfaRule::Expression => false,
        CfaRule::RegisterAndOffset { register, offset } => {
            if register == REG_SP {
                &&& fits_u16(div_toward_zero(offset as int, 16))
                &&& cfa_offset_of(ra_rule) matches Ok(Some(r))
                &&& cfa_offset_of(fp_rule) is Ok
                &&& {
                    ||| !fits_i64(offset + r)
                    ||| {
                        &&& fits_i16(div_toward_zero(offset + r, 8))
                        &&& cfa_offset_of(fp_rule) matches Ok(Some(f))
                        &&& !fits_i64(offset + f)
                    }
                }
            } else if register == REG_FP {
                &&& cfa_offset_of(ra_rule) matches Ok(Some(r))
                &&& cfa_offset_of(fp_rule) matches Ok(Some(f))
                &&& !(offset == 0 && f == -16 && r == -8)
                &&& fits_u16(div_toward_zero(offset as int, 8))
                &&& {
                    ||| !fits_i64(offset + r)
                    ||| fits_i16(div_toward_zero(offset + r, 8)) && !fits_i64(offset + f)
                }
            } else {
                false
            }
        },
    }
}

/// The CFA offset at which the register with this rule is saved: `None`
/// where the register is not saved.
pub fn register_rule_to_cfa_offset(rule: Option<&RegisterRule>) -> (r: Result<
    Option<i64>,
    ConversionError,
>)
    ensures
        r == cfa_offset_of(deref_rule(rule)),
{
    let Some(rule) = rule else { return Ok(None) };
    match *rule {
        RegisterRule::Undefined | RegisterRule::SameValue => Ok(None),
        RegisterRule::Offset(offset) => Ok(Some(offset)),
        _ => Err(ConversionError::RegisterNotStoredRelativeToCfa),
    }
}

/// `a / d` on `i64`, rounding toward zero, as a `u16` where it fits.
fn quotient_as_u16(a: i64, d: i64) -> (r: Option<u16>)
    requires
        d == 8 || d == 16,
    ensures
        r == (if fits_u16(div_toward_zero(a as int, d as nat)) {
            Some(div_toward_zero(a as int, d as nat) as u16)
        } else {
            None
        }),
{
    let q = a / d;
    if 0 <= q && q <= 65535 {
        Some(q as u16)
    } else {
        None
    }
}

/// `a / 8` on `i64`, rounding toward zero, as an `i16` where it fits.
fn eighth_as_i16(a: i64) -> (r: Option<i16>)
    ensures
        r == (if fits_i16(div_toward_zero(a as int, 8)) {
            Some(div_toward_zero(a as int, 8) as i16)
        } else {
            None
        }),
{
    let q = a / 8;
    if -32768 <= q && q <= 32767 {
        Some(q as i16)
    } else {
        None
    }
}

/// Whether translating the row would add a register's CFA offset to the CFA
/// offset outside the range of `i64`: the rows that
/// `translate_into_unwind_rule` does not accept.
pub fn translation_would_overflow(
    cfa_rule: &CfaRule,
    fp_rule: Option<&RegisterRule>,
    ra_rule: Option<&RegisterRule>,
) -> (r: bool)
    ensures
        r == translation_overflows(*cfa_rule, deref_rule(fp_rule), deref_rule(ra_rule)),
{
    let (register, offset) = match cfa_rule {
        CfaRule::RegisterAndOffset { register, offset } => (*register, *offset),
        CfaRule::Expression => return false,
    };
    let ra_offset = match register_rule_to_cfa_offset(ra_rule) {
        Ok(Some(r)) => r,
        _ => return false,
    };
    let fp_offset = match register_rule_to_cfa_offset(fp_rule) {
        Ok(f) => f,
        Err(_) => return false,
    };
    if register == REG_SP {
        if quotient_as_u16(offset, 16).is_none() {
            return false;
        }
    } else if register == REG_FP {
        let f = match fp_offset {
            Some(f) => f,
            None => return false,
        };
        if offset == 0 && f == -16 && ra_offset == -8 {
            return false;
        }
        if quotient_as_u16(offset, 8).is_none() {
            return false;
        }
    } else {
        return false;
    }
    match offset.checked_add(ra_offset) {
        None => true,
        Some(ra_sum) => {
            if eighth_as_i16(ra_sum).is_none() {
                return false;
            }
            match fp_offset {
                Some(f) => offset.checked_add(f).is_none(),
                None => false,
            }
        },
    }
}

/// Translates the CFA, fp and ra rules of a row of DWARF call frame
/// information into an unwind rule, where one expresses them.
pub fn translate_into_unwind_rule(
    cfa_rule: &CfaRule,
    fp_rule: Option<&RegisterRule>,
    ra_rule: Option<&RegisterRule>,
) -> (r: Result<UnwindRuleLoongArch64, ConversionError>)
    requires
        !translation_overflows(*cfa_rule, deref_rule(fp_rule), deref_rule(ra_rule)),
    ensures
        r == translation(*cfa_rule, deref_rule(fp_rule), deref_rule(ra_rule)),
{
    match cfa_rule {
        CfaRule::RegisterAndOffset { register, offset } => {
            let offset = *offset;
            if *register == REG_SP {
                let sp_offset_by_16 = match quotient_as_u16(offset, 16) {
                    Some(v) => v,
                    None => return Err(ConversionError::SpOffsetDoesNotFit),
                };
                let ra_cfa_offset = register_rule_to_cfa_offset(ra_rule)?;
                let fp_cfa_offset = register_rule_to_cfa_offset(fp_rule)?;
                match (ra_cfa_offset, fp_cfa_offset) {
                    (None, Some(_)) => Err(ConversionError::RestoringFpButNotRa),
                    (None, None) => {
                        match ra_rule {
                            None => {
                                // The column for the return address register was omitted from the DWARF CFI table.
                                // Per spec (at least as of DWARF >= 3), this means that it should be treated
                                // as undefined. However, in practice, it seems that compilers often omit the rule
                                // to say "same value", see https://github.com/gimli-rs/gimli/issues/857 .
                                Ok(UnwindRuleLoongArch64::OffsetSp { sp_offset_by_16 })
                            },
                            Some(RegisterRule::Undefined) => {
                                // The column for the return address was manually set to "undefined"
                                // using DW_CFA_undefined. This usually means that the function never returns
                                // and can be treated as the root of the stack.
                                Ok(
                                    UnwindRuleLoongArch64::OffsetSpIfFirstFrameOtherwiseStackEndsHere {
                                        sp_offset_by_16,
                                    },
                                )
                            },
                            _ => Ok(UnwindRuleLoongArch64::OffsetSp { sp_offset_by_16 }),
                        }
                    },
                    (Some(ra_cfa_offset), None) => {
                        let ra_storage_offset_from_sp_by_8 = match eighth_as_i16(
                            offset + ra_cfa_offset,
                        ) {
                            Some(v) => v,
                            None => return Err(ConversionError::RaStorageOffsetDoesNotFit),
                        };
                        Ok(
                            UnwindRuleLoongArch64::OffsetSpAndRestoreRa {
                                sp_offset_by_16,
                                ra_storage_offset_from_sp_by_8,
                            },
                        )
                    },
                    (Some(ra_cfa_offset), Some(fp_cfa_offset)) => {
                        let ra_storage_offset_from_sp_by_8 = match eighth_as_i16(
                            offset + ra_cfa_offset,
                        ) {
                            Some(v) => v,
                            None => return Err(ConversionError::RaStorageOffsetDoesNotFit),
                        };
                        let fp_storage_offset_from_sp_by_8 = match eighth_as_i16(
                            offset + fp_cfa_offset,
                        ) {
                            Some(v) => v,
                            None => return Err(ConversionError::FpStorageOffsetDoesNotFit),
                        };
                        Ok(
                            UnwindRuleLoongArch64::OffsetSpAndRestoreFpAndRa {
                                sp_offset_by_16,
                                fp_storage_offset_from_sp_by_8,
                                ra_storage_offset_from_sp_by_8,
                            },
                        )
                    },
                }
            } else if *register == REG_FP {
                let ra_cfa_offset = match register_rule_to_cfa_offset(ra_rule)? {
                    Some(v) => v,
                    None => return Err(ConversionError::FramePointerRuleDoesNotRestoreRa),
                };
                let fp_cfa_offset = match register_rule_to_cfa_offset(fp_rule)? {
                    Some(v) => v,
                    None => return Err(ConversionError::FramePointerRuleDoesNotRestoreFp),
                };
                if offset == 0 && fp_cfa_offset == -16 && ra_cfa_offset == -8 {
                    Ok(UnwindRuleLoongArch64::UseFramePointer)
                } else {
                    let sp_offset_from_fp_by_8 = match quotient_as_u16(offset, 8) {
                        Some(v) => v,
                        None => return Err(ConversionError::SpOffsetFromFpDoesNotFit),
                    };
                    let ra_storage_offset_from_fp_by_8 = match eighth_as_i16(
                        offset + ra_cfa_offset,
                    ) {
                        Some(v) => v,
                        None => return Err(ConversionError::RaStorageOffsetDoesNotFit),
                    };
                    let fp_storage_offset_from_fp_by_8 = match eighth_as_i16(
                        offset + fp_cfa_offset,
                    ) {
                        Some(v) => v,
                        None => return Err(ConversionError::FpStorageOffsetDoesNotFit),
                    };
                    Ok(
                        UnwindRuleLoongArch64::UseFramepointerWithOffsets {
                            sp_offset_from_fp_by_8,
                            fp_storage_offset_from_fp_by_8,
                            ra_storage_offset_from_fp_by_8,
                        },
                    )
                }
            } else {
                Err(ConversionError::CfaIsOffsetFromUnknownRegister)
            }
        },
        CfaRule::Expression => Err(ConversionError::CfaIsExpression),
    }
}

impl UnwindRegsLoongArch64 {
    /// The value of the register with the given DWARF number, for sp, fp
    /// and ra; `None` for any other register.
    pub fn get(&self, register: u16) -> (r: Option<u64>)
        ensures
            r == (if register == REG_SP {
                Some(self@.sp)
            } else if register == REG_FP {
                Some(self@.fp)
            } else if register == REG_RA {
                Some(self@.ra)
            } else {
                None
            }),
    {
        if register == REG_SP {
            Some(self.sp())
        } else if register == REG_FP {
            Some(self.fp())
        } else if register == REG_RA {
            Some(self.ra())
        } else {
            None
        }
    }
}

/// What unwinding one frame through DWARF call frame information gives.
#[derive(Debug, PartialEq, Eq)]
pub enum UnwindResult<R> {
    /// The row translates into this rule, which the caller executes (and
    /// may cache).
    ExecRule(R),
    /// The registers were unwound directly; this is the return address.
    Uncacheable(u64),
}

/// Whether the generic path evaluates the frame pointer's rule, given what
/// evaluating the CFA gave.
pub open spec fn evaluates_fp(is_first_frame: bool, regs: RegsModel, cfa: Option<u64>) -> bool {
    match cfa {
        None => false,
        Some(cfa) => is_first_frame || cfa > regs.sp,
    }
}

/// Whether the generic path evaluates the return address's rule.
pub open spec fn evaluates_ra(
    is_first_frame: bool,
    regs: RegsModel,
    cfa: Option<u64>,
    fp_eval: Option<u64>,
) -> bool {
    evaluates_fp(is_first_frame, regs, cfa) && (is_first_frame || fp_eval is Some)
}

/// The generic path of a DWARF unwind, given what evaluating the CFA, the
/// frame pointer's rule and the return address's rule gave: the first frame
/// keeps a register whose rule could not be evaluated, later frames fail.
pub open spec fn generic_unwind_outcome(
    is_first_frame: bool,
    regs: RegsModel,
    cfa: Option<u64>,
    fp_eval: Option<u64>,
    ra_eval: Option<u64>,
) -> (Result<UnwindResult<UnwindRuleLoongArch64>, DwarfUnwinderError>, RegsModel) {
    match cfa {
        None => (Err(DwarfUnwinderError::CouldNotRecoverCfa), regs),
        Some(cfa) => {
            if !is_first_frame {
                if cfa <= regs.sp {
                    (Err(DwarfUnwinderError::StackPointerMovedBackwards), regs)
                } else {
                    match fp_eval {
                        None => (Err(DwarfUnwinderError::CouldNotRecoverFramePointer), regs),
                        Some(fp) => match ra_eval {
                            None => (Err(DwarfUnwinderError::CouldNotRecoverReturnAddress), regs),
                            Some(ra) => (Ok(UnwindResult::Uncacheable(ra)), RegsModel { ra, sp: cfa, fp }),
                        },
                    }
                }
            } else {
                let fp = match fp_eval {
                    Some(v) => v,
                    None => regs.fp,
                };
                let ra = match ra_eval {
                    Some(v) => v,
                    None => regs.ra,
                };
                (Ok(UnwindResult::Uncacheable(ra)), RegsModel { ra, sp: cfa, fp })
            }
        },
    }
}

/// What `unwind_frame` returns and leaves in the registers: the translated
/// rule where there is one (registers untouched), the generic path otherwise.
pub open spec fn dwarf_unwind_outcome(
    cfa_rule: CfaRule,
    fp_rule: Option<RegisterRule>,
    ra_rule: Option<RegisterRule>,
    is_first_frame: bool,
    regs: RegsModel,
    cfa: Option<u64>,
    fp_eval: Option<u64>,
    ra_eval: Option<u64>,
) -> (Result<UnwindResult<UnwindRuleLoongArch64>, DwarfUnwinderError>, RegsModel) {
    match translation(cfa_rule, fp_rule, ra_rule) {
        Ok(rule) => (Ok(UnwindResult::ExecRule(rule)), regs),
        Err(_) => generic_unwind_outcome(is_first_frame, regs, cfa, fp_eval, ra_eval),
    }
}

/// Unwinding through DWARF call frame information.
pub trait DwarfUnwinding {
    /// Unwinds one frame with the CFA, fp and ra rules of the row of DWARF
    /// call frame information that covers the address; see the impl for
    /// LoongArch64.
    fn unwind_frame<EC, EV>(
        cfa_rule: &CfaRule,
        fp_rule: Option<&RegisterRule>,
        ra_rule: Option<&RegisterRule>,
        regs: &mut UnwindRegsLoongArch64,
        is_first_frame: bool,
        eval_cfa: &mut EC,
        eval_register: &mut EV,
    ) -> Result<UnwindResult<UnwindRuleLoongArch64>, DwarfUnwinderError>
        where
            EC: FnMut(UnwindRegsLoongArch64) -> Option<u64>,
            EV: FnMut(u16, u64, u64, UnwindRegsLoongArch64) -> Option<u64>,
        requires
            !translation_overflows(*cfa_rule, deref_rule(fp_rule), deref_rule(ra_rule)),
            forall|r: UnwindRegsLoongArch64| call_requires(*old(eval_cfa), (r,)),
            forall|reg: u16, cfa: u64, v: u64, r: UnwindRegsLoongArch64|
                call_requires(*old(eval_register), (reg, cfa, v, r)),
    ;

    /// The rule for addresses that no DWARF frame description entry covers.
    fn rule_if_uncovered_by_fde() -> UnwindRuleLoongArch64;
}

impl DwarfUnwinding for ArchLoongArch64 {
    /// Unwinds one frame with the CFA, fp and ra rules of the row of DWARF
    /// call frame information that covers the address. Where the row
    /// translates into an unwind rule, that rule is returned for the caller
    /// to execute. Otherwise the rules are evaluated: `eval_cfa` computes the
    /// CFA from the registers, and `eval_register` recovers the caller's value
    /// of the register with the given DWARF number from the CFA, the
    /// register's current value and the registers (reading the stack where
    /// the rule says so).
    fn unwind_frame<EC, EV>(
        cfa_rule: &CfaRule,
        fp_rule: Option<&RegisterRule>,
        ra_rule: Option<&RegisterRule>,
        regs: &mut UnwindRegsLoongArch64,
        is_first_frame: bool,
        eval_cfa: &mut EC,
        eval_register: &mut EV,
    ) -> (res: Result<UnwindResult<UnwindRuleLoongArch64>, DwarfUnwinderError>)
        where
            EC: FnMut(UnwindRegsLoongArch64) -> Option<u64>,
            EV: FnMut(u16, u64, u64, UnwindRegsLoongArch64) -> Option<u64>,
        ensures
            exists|cfa: Option<u64>, fp_eval: Option<u64>, ra_eval: Option<u64>|
                #![trigger dwarf_unwind_outcome(*cfa_rule, deref_rule(fp_rule), deref_rule(ra_rule), is_first_frame, old(regs)@, cfa, fp_eval, ra_eval)]
                {
                    &&& translation(*cfa_rule, deref_rule(fp_rule), deref_rule(ra_rule)) is Err
                        ==> call_ensures(*old(eval_cfa), (*old(regs),), cfa)
                    &&& translation(*cfa_rule, deref_rule(fp_rule), deref_rule(ra_rule)) is Err
                        && evaluates_fp(is_first_frame, old(regs)@, cfa) ==> call_ensures(
                        *old(eval_register),
                        (REG_FP, cfa->0, old(regs)@.fp, *old(regs)),
                        fp_eval,
                    )
                    &&& translation(*cfa_rule, deref_rule(fp_rule), deref_rule(ra_rule)) is Err
                        && evaluates_ra(is_first_frame, old(regs)@, cfa, fp_eval) ==> call_ensures(
                        *old(eval_register),
                        (REG_RA, cfa->0, old(regs)@.ra, *old(regs)),
                        ra_eval,
                    )
                    &&& dwarf_unwind_outcome(
                        *cfa_rule,
                        deref_rule(fp_rule),
                        deref_rule(ra_rule),
                        is_first_frame,
                        old(regs)@,
                        cfa,
                        fp_eval,
                        ra_eval,
                    ) == (res, final(regs)@)
                },
    {
        match translate_into_unwind_rule(cfa_rule, fp_rule, ra_rule) {
            Ok(unwind_rule) => {
                let res = Ok(UnwindResult::ExecRule(unwind_rule));
                assert(dwarf_unwind_outcome(
                    *cfa_rule,
                    deref_rule(fp_rule),
                    deref_rule(ra_rule),
                    is_first_frame,
                    old(regs)@,
                    None,
                    None,
                    None,
                ) == (res, regs@));
                return res;
            },
            Err(_err) => {
                // Could not translate into a cacheable unwind rule. Fall back to the generic path.
            },
        }
        let current = *regs;
        let cfa_eval = eval_cfa(current);
        let ghost mut fp_g: Option<u64> = None;
        let ghost mut ra_g: Option<u64> = None;
        let res = match cfa_eval {
            None => Err(DwarfUnwinderError::CouldNotRecoverCfa),
            Some(cfa) => {
                let ra = regs.ra();
                let fp = regs.fp();
                let sp = regs.sp();
                if !is_first_frame {
                    if cfa <= sp {
                        Err(DwarfUnwinderError::StackPointerMovedBackwards)
                    } else {
                        let fp_e = eval_register(REG_FP, cfa, fp, current);
                        proof {
                            fp_g = fp_e;
                        }
                        match fp_e {
                            None => Err(DwarfUnwinderError::CouldNotRecoverFramePointer),
                            Some(new_fp) => {
                                let ra_e = eval_register(REG_RA, cfa, ra, current);
                                proof {
                                    ra_g = ra_e;
                                }
                                match ra_e {
                                    None => Err(DwarfUnwinderError::CouldNotRecoverReturnAddress),
                                    Some(new_ra) => {
                                        regs.set_fp(new_fp);
                                        regs.set_sp(cfa);
                                        regs.set_ra(new_ra);
                                        Ok(UnwindResult::Uncacheable(new_ra))
                                    },
                                }
                            },
                        }
                    }
                } else {
                    // For the first frame, be more lenient when encountering errors.
                    let fp_e = eval_register(REG_FP, cfa, fp, current);
                    proof {
                        fp_g = fp_e;
                    }
                    let new_fp = match fp_e {
                        Some(v) => v,
                        None => fp,
                    };
                    let ra_e = eval_register(REG_RA, cfa, ra, current);
                    proof {
                        ra_g = ra_e;
                    }
                    let new_ra = match ra_e {
                        Some(v) => v,
                        None => ra,
                    };
                    regs.set_fp(new_fp);
                    regs.set_sp(cfa);
                    regs.set_ra(new_ra);
                    Ok(UnwindResult::Uncacheable(new_ra))
                }
            },
        };
        assert(dwarf_unwind_outcome(
            *cfa_rule,
            deref_rule(fp_rule),
            deref_rule(ra_rule),
            is_first_frame,
            old(regs)@,
            cfa_eval,
            fp_g,
            ra_g,
        ) == (res, regs@));
        res
    }

    /// The rule for addresses that no DWARF frame description entry covers:
    /// keep the registers on the first frame, use the frame pointer otherwise.
    fn rule_if_uncovered_by_fde() -> (r: UnwindRuleLoongArch64)
        ensures
            r == UnwindRuleLoongArch64::NoOpIfFirstFrameOtherwiseFp,
    {
        UnwindRuleLoongArch64::NoOpIfFirstFrameOtherwiseFp
    }
}

} // verus!
