use vstd::prelude::*;

use crate::dwarf::{
    cfa_offset_of, dwarf_unwind_outcome, translation, translation_overflows, CfaRule,
    RegisterRule, UnwindResult,
};
use crate::error::{ConversionError, DwarfUnwinderError};
use crate::unwind_rule::UnwindRuleLoongArch64;
use crate::unwindregs::RegsModel;

verus! {

// The laws below state which unwind rule a row of DWARF call frame
// information translates into, as arithmetic on the row's offsets. Registers
// are the LoongArch64 DWARF numbers: sp is 3, fp is 22.
/// `a / d`, rounded toward zero.
pub open spec fn quotient_toward_zero(a: int, d: int) -> int {
    if a >= 0 {
        a / d
    } else {
        -((-a) / d)
    }
}

/// The rule leaves the register as it is: no rule, `Undefined` or
/// `SameValue`.
pub open spec fn leaves_register(rule: Option<RegisterRule>) -> bool {
    ||| rule is None
    ||| rule == Some(RegisterRule::Undefined)
    ||| rule == Some(RegisterRule::SameValue)
}

/// The rule recovers the register in a way other than from a CFA offset.
pub open spec fn other_register_rule(rule: Option<RegisterRule>) -> bool {
    !leaves_register(rule) && !(rule matches Some(RegisterRule::Offset(_)))
}

pub open spec fn in_u16(x: int) -> bool {
    0 <= x <= 65535
}

pub open spec fn in_i16(x: int) -> bool {
    -32768 <= x <= 32767
}

/// CFA = sp + o, ra saved at CFA + r, fp saved at CFA + f: the rule restores
/// both, with sp offset o / 16, fp slot (o + f) / 8 and ra slot (o + r) / 8
/// (rounded toward zero), exactly when these fit their fields.
pub proof fn lemma_sp_row_saving_both(o: i64, r: i64, f: i64)
    ensures
        ({
            let q = quotient_toward_zero(o as int, 16);
            let qr = quotient_toward_zero(o + r, 8);
            let qf = quotient_toward_zero(o + f, 8);
            translation(
                CfaRule::RegisterAndOffset { register: 3, offset: o },
                Some(RegisterRule::Offset(f)),
                Some(RegisterRule::Offset(r)),
            ) == if !in_u16(q) {
                Err::<UnwindRuleLoongArch64, ConversionError>(ConversionError::SpOffsetDoesNotFit)
            } else if !in_i16(qr) {
                Err(ConversionError::RaStorageOffsetDoesNotFit)
            } else if !in_i16(qf) {
                Err(ConversionError::FpStorageOffsetDoesNotFit)
            } else {
                Ok(
                    UnwindRuleLoongArch64::OffsetSpAndRestoreFpAndRa {
                        sp_offset_by_16: q as u16,
                        fp_storage_offset_from_sp_by_8: qf as i16,
                        ra_storage_offset_from_sp_by_8: qr as i16,
                    },
                )
            }
        }),
{
}

/// CFA = sp + o, ra saved at CFA + r, fp left as it is: the rule restores ra
/// alone, exactly when o / 16 and (o + r) / 8 fit their fields.
pub proof fn lemma_sp_row_saving_ra(o: i64, r: i64, fp_rule: Option<RegisterRule>)
    requires
        leaves_register(fp_rule),
    ensures
        ({
            let q = quotient_toward_zero(o as int, 16);
            let qr = quotient_toward_zero(o + r, 8);
            translation(
                CfaRule::RegisterAndOffset { register: 3, offset: o },
                fp_rule,
                Some(RegisterRule::Offset(r)),
            ) == if !in_u16(q) {
                Err::<UnwindRuleLoongArch64, ConversionError>(ConversionError::SpOffsetDoesNotFit)
            } else if !in_i16(qr) {
                Err(ConversionError::RaStorageOffsetDoesNotFit)
            } else {
                Ok(
                    UnwindRuleLoongArch64::OffsetSpAndRestoreRa {
                        sp_offset_by_16: q as u16,
                        ra_storage_offset_from_sp_by_8: qr as i16,
                    },
                )
            }
        }),
{
}

/// CFA = sp + o with neither ra nor fp saved: sp moves by o / 16 (where it
/// fits); an explicitly undefined ra ends the stack after the first frame,
/// an omitted or same-value ra keeps ra. A row saving fp but not ra is
/// refused.
pub proof fn lemma_sp_row_saving_neither(
    o: i64,
    f: i64,
    fp_rule: Option<RegisterRule>,
    ra_rule: Option<RegisterRule>,
)
    requires
        leaves_register(ra_rule),
    ensures
        ({
            let q = quotient_toward_zero(o as int, 16);
            let cfa_rule = CfaRule::RegisterAndOffset { register: 3, offset: o };
            &&& leaves_register(fp_rule) ==> translation(cfa_rule, fp_rule, ra_rule) == if !in_u16(
                q,
            ) {
                Err::<UnwindRuleLoongArch64, ConversionError>(ConversionError::SpOffsetDoesNotFit)
            } else if ra_rule == Some(RegisterRule::Undefined) {
                Ok(
                    UnwindRuleLoongArch64::OffsetSpIfFirstFrameOtherwiseStackEndsHere {
                        sp_offset_by_16: q as u16,
                    },
                )
            } else {
                Ok(UnwindRuleLoongArch64::OffsetSp { sp_offset_by_16: q as u16 })
            }
            &&& translation(cfa_rule, Some(RegisterRule::Offset(f)), ra_rule) == if !in_u16(q) {
                Err::<UnwindRuleLoongArch64, ConversionError>(ConversionError::SpOffsetDoesNotFit)
            } else {
                Err(ConversionError::RestoringFpButNotRa)
            }
        }),
{
}

/// CFA = fp + o, ra saved at CFA + r, fp saved at CFA + f: the standard
/// frame (o = 0, f = -16, r = -8) is `UseFramePointer`; otherwise the rule
/// takes sp = fp + 8 (o / 8) and the slots (o + f) / 8 and (o + r) / 8,
/// exactly when these fit their fields.
pub proof fn lemma_fp_row_saving_both(o: i64, r: i64, f: i64)
    ensures
        ({
            let q = quotient_toward_zero(o as int, 8);
            let qr = quotient_toward_zero(o + r, 8);
            let qf = quotient_toward_zero(o + f, 8);
            translation(
                CfaRule::RegisterAndOffset { register: 22, offset: o },
                Some(RegisterRule::Offset(f)),
                Some(RegisterRule::Offset(r)),
            ) == if o == 0 && f == -16 && r == -8 {
                Ok::<UnwindRuleLoongArch64, ConversionError>(UnwindRuleLoongArch64::UseFramePointer)
            } else if !in_u16(q) {
                Err(ConversionError::SpOffsetFromFpDoesNotFit)
            } else if !in_i16(qr) {
                Err(ConversionError::RaStorageOffsetDoesNotFit)
            } else if !in_i16(qf) {
                Err(ConversionError::FpStorageOffsetDoesNotFit)
            } else {
                Ok(
                    UnwindRuleLoongArch64::UseFramepointerWithOffsets {
                        sp_offset_from_fp_by_8: q as u16,
                        fp_storage_offset_from_fp_by_8: qf as i16,
                        ra_storage_offset_from_fp_by_8: qr as i16,
                    },
                )
            }
        }),
{
}

/// CFA = fp + o without a saved ra, or with a saved ra but no saved fp, is
/// refused.
pub proof fn lemma_fp_row_must_save_both(
    o: i64,
    r: i64,
    fp_rule: Option<RegisterRule>,
    ra_rule: Option<RegisterRule>,
)
    ensures
        leaves_register(ra_rule) ==> translation(
            CfaRule::RegisterAndOffset { register: 22, offset: o },
            fp_rule,
            ra_rule,
        ) == Err::<UnwindRuleLoongArch64, ConversionError>(
            ConversionError::FramePointerRuleDoesNotRestoreRa,
        ),
        leaves_register(fp_rule) ==> translation(
            CfaRule::RegisterAndOffset { register: 22, offset: o },
            fp_rule,
            Some(RegisterRule::Offset(r)),
        ) == Err::<UnwindRuleLoongArch64, ConversionError>(
            ConversionError::FramePointerRuleDoesNotRestoreFp,
        ),
{
}

/// Rows that no rule expresses: a CFA expression, a CFA based on another
/// register, or a register recovered other than from a CFA offset.
pub proof fn lemma_untranslatable_rows(
    register: u16,
    o: i64,
    fp_rule: Option<RegisterRule>,
    ra_rule: Option<RegisterRule>,
)
    ensures
        translation(CfaRule::Expression, fp_rule, ra_rule) == Err::<
            UnwindRuleLoongArch64,
            ConversionError,
        >(ConversionError::CfaIsExpression),
        register != 3 && register != 22 ==> translation(
            CfaRule::RegisterAndOffset { register, offset: o },
            fp_rule,
            ra_rule,
        ) == Err::<UnwindRuleLoongArch64, ConversionError>(
            ConversionError::CfaIsOffsetFromUnknownRegister,
        ),
        other_register_rule(ra_rule) ==> translation(
            CfaRule::RegisterAndOffset { register: 22, offset: o },
            fp_rule,
            ra_rule,
        ) == Err::<UnwindRuleLoongArch64, ConversionError>(
            ConversionError::RegisterNotStoredRelativeToCfa,
        ),
        other_register_rule(ra_rule) && in_u16(quotient_toward_zero(o as int, 16)) ==> translation(
            CfaRule::RegisterAndOffset { register: 3, offset: o },
            fp_rule,
            ra_rule,
        ) == Err::<UnwindRuleLoongArch64, ConversionError>(
            ConversionError::RegisterNotStoredRelativeToCfa,
        ),
{
}

/// One DWARF unwind step: a row that translates gives its rule and leaves
/// the registers; otherwise the CFA and the rules' values decide. On the
/// first frame a rule that could not be evaluated keeps the register's
/// value; on later frames the CFA must lie above sp and both fp and ra must
/// be recovered.
pub proof fn lemma_dwarf_step_formula(
    cfa_rule: CfaRule,
    fp_rule: Option<RegisterRule>,
    ra_rule: Option<RegisterRule>,
    is_first_frame: bool,
    regs: RegsModel,
    cfa: Option<u64>,
    fp_eval: Option<u64>,
    ra_eval: Option<u64>,
)
    ensures
        ({
            let out = dwarf_unwind_outcome(
                cfa_rule,
                fp_rule,
                ra_rule,
                is_first_frame,
                regs,
                cfa,
                fp_eval,
                ra_eval,
            );
            let new_ra = if ra_eval is Some {
                ra_eval->0
            } else {
                regs.ra
            };
            let new_fp = if fp_eval is Some {
                fp_eval->0
            } else {
                regs.fp
            };
            &&& translation(cfa_rule, fp_rule, ra_rule) matches Ok(rule) ==> out == (
                Ok::<UnwindResult<UnwindRuleLoongArch64>, DwarfUnwinderError>(
                    UnwindResult::ExecRule(rule),
                ),
                regs,
            )
            &&& translation(cfa_rule, fp_rule, ra_rule) is Err ==> {
                &&& cfa is None ==> out == (
                    Err::<UnwindResult<UnwindRuleLoongArch64>, DwarfUnwinderError>(
                        DwarfUnwinderError::CouldNotRecoverCfa,
                    ),
                    regs,
                )
                &&& cfa is Some && is_first_frame ==> out == (
                    Ok::<UnwindResult<UnwindRuleLoongArch64>, DwarfUnwinderError>(
                        UnwindResult::Uncacheable(new_ra),
                    ),
                    RegsModel { ra: new_ra, sp: cfa->0, fp: new_fp },
                )
                &&& cfa is Some && !is_first_frame ==> out == (if cfa->0 <= regs.sp {
                    (
                        Err::<UnwindResult<UnwindRuleLoongArch64>, DwarfUnwinderError>(
                            DwarfUnwinderError::StackPointerMovedBackwards,
                        ),
                        regs,
                    )
                } else if fp_eval is None {
                    (Err(DwarfUnwinderError::CouldNotRecoverFramePointer), regs)
                } else if ra_eval is None {
                    (Err(DwarfUnwinderError::CouldNotRecoverReturnAddress), regs)
                } else {
                    (
                        Ok(UnwindResult::Uncacheable(ra_eval->0)),
                        RegsModel { ra: ra_eval->0, sp: cfa->0, fp: fp_eval->0 },
                    )
                })
            }
        }),
{
}

/// The CFA offset of a register's rule: none for no rule, `Undefined` and
/// `SameValue`, N for `Offset(N)`, and an error for every other rule.
pub proof fn lemma_cfa_offset_of_rules(n: i64, rule: Option<RegisterRule>)
    ensures
        leaves_register(rule) ==> cfa_offset_of(rule) == Ok::<Option<i64>, ConversionError>(None),
        cfa_offset_of(Some(RegisterRule::Offset(n))) == Ok::<Option<i64>, ConversionError>(
            Some(n),
        ),
        other_register_rule(rule) ==> cfa_offset_of(rule) == Err::<Option<i64>, ConversionError>(
            ConversionError::RegisterNotStoredRelativeToCfa,
        ),
{
}

/// A row with CFA = sp + o saving ra at CFA + r and fp at CFA + f makes
/// the translation's additions overflow exactly when o / 16 fits and o + r
/// leaves the range of `i64`, or (o + r) / 8 fits and o + f leaves it.
pub proof fn lemma_sp_row_overflow(o: i64, r: i64, f: i64)
    ensures
        translation_overflows(
            CfaRule::RegisterAndOffset { register: 3, offset: o },
            Some(RegisterRule::Offset(f)),
            Some(RegisterRule::Offset(r)),
        ) == (in_u16(quotient_toward_zero(o as int, 16)) && (!(-0x8000_0000_0000_0000 <= o + r
            <= 0x7fff_ffff_ffff_ffff) || (in_i16(quotient_toward_zero(o + r, 8)) && !(
        -0x8000_0000_0000_0000 <= o + f <= 0x7fff_ffff_ffff_ffff)))),
        !translation_overflows(
            CfaRule::RegisterAndOffset { register: 3, offset: o },
            None,
            None,
        ),
        !translation_overflows(CfaRule::Expression, Some(RegisterRule::Offset(f)), Some(RegisterRule::Offset(r))),
{
}

} // verus!
