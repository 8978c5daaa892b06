use framehop::{
    register_rule_to_cfa_offset, translate_into_unwind_rule, ArchLoongArch64, CfaRule,
    ConversionError, DwarfUnwinderError, DwarfUnwinding, RegisterRule, UnwindRegsLoongArch64,
    UnwindResult, UnwindRuleLoongArch64, REG_FP, REG_RA, REG_SP,
};
use gimli::LoongArch;

#[test]
fn test_translate_frame_pointer_rule() {
    let cfa_rule = CfaRule::RegisterAndOffset {
        register: LoongArch::R22.0,
        offset: 0,
    };
    let fp_rule = RegisterRule::Offset(-16);
    let ra_rule = RegisterRule::Offset(-8);

    assert_eq!(
        translate_into_unwind_rule(&cfa_rule, Some(&fp_rule), Some(&ra_rule)).unwrap(),
        UnwindRuleLoongArch64::UseFramePointer
    );
}

#[test]
fn test_translate_stack_pointer_rule() {
    let cfa_rule = CfaRule::RegisterAndOffset {
        register: LoongArch::R3.0,
        offset: 32,
    };
    let fp_rule = RegisterRule::Offset(-16);
    let ra_rule = RegisterRule::Offset(-8);

    assert_eq!(
        translate_into_unwind_rule(&cfa_rule, Some(&fp_rule), Some(&ra_rule)).unwrap(),
        UnwindRuleLoongArch64::OffsetSpAndRestoreFpAndRa {
            sp_offset_by_16: 2,
            fp_storage_offset_from_sp_by_8: 2,
            ra_storage_offset_from_sp_by_8: 3,
        }
    );
}

#[test]
fn test_unknown_cfa_register_is_rejected() {
    let cfa_rule = CfaRule::RegisterAndOffset {
        register: LoongArch::R4.0,
        offset: 0,
    };
    let fp_rule = RegisterRule::Offset(-16);
    let ra_rule = RegisterRule::Offset(-8);

    assert!(matches!(
        translate_into_unwind_rule(&cfa_rule, Some(&fp_rule), Some(&ra_rule)),
        Err(ConversionError::CfaIsOffsetFromUnknownRegister)
    ));
}

fn sp_cfa(offset: i64) -> CfaRule {
    CfaRule::RegisterAndOffset { register: REG_SP, offset }
}

fn fp_cfa(offset: i64) -> CfaRule {
    CfaRule::RegisterAndOffset { register: REG_FP, offset }
}

#[test]
fn cfa_offsets_of_register_rules() {
    assert_eq!(register_rule_to_cfa_offset(None), Ok(None));
    assert_eq!(register_rule_to_cfa_offset(Some(&RegisterRule::Undefined)), Ok(None));
    assert_eq!(register_rule_to_cfa_offset(Some(&RegisterRule::SameValue)), Ok(None));
    assert_eq!(register_rule_to_cfa_offset(Some(&RegisterRule::Offset(-24))), Ok(Some(-24)));
    assert_eq!(
        register_rule_to_cfa_offset(Some(&RegisterRule::ValOffset(8))),
        Err(ConversionError::RegisterNotStoredRelativeToCfa)
    );
    assert_eq!(
        register_rule_to_cfa_offset(Some(&RegisterRule::Register(1))),
        Err(ConversionError::RegisterNotStoredRelativeToCfa)
    );
}

#[test]
fn sp_rows_without_saved_registers() {
    assert_eq!(
        translate_into_unwind_rule(&sp_cfa(48), None, None),
        Ok(UnwindRuleLoongArch64::OffsetSp { sp_offset_by_16: 3 })
    );
    assert_eq!(
        translate_into_unwind_rule(&sp_cfa(48), None, Some(&RegisterRule::SameValue)),
        Ok(UnwindRuleLoongArch64::OffsetSp { sp_offset_by_16: 3 })
    );
    assert_eq!(
        translate_into_unwind_rule(&sp_cfa(48), None, Some(&RegisterRule::Undefined)),
        Ok(UnwindRuleLoongArch64::OffsetSpIfFirstFrameOtherwiseStackEndsHere {
            sp_offset_by_16: 3
        })
    );
    // Offsets round toward zero, as Rust's division does.
    assert_eq!(
        translate_into_unwind_rule(&sp_cfa(-15), None, None),
        Ok(UnwindRuleLoongArch64::OffsetSp { sp_offset_by_16: 0 })
    );
}

#[test]
fn sp_rows_with_saved_ra() {
    assert_eq!(
        translate_into_unwind_rule(&sp_cfa(16), None, Some(&RegisterRule::Offset(-8))),
        Ok(UnwindRuleLoongArch64::OffsetSpAndRestoreRa {
            sp_offset_by_16: 1,
            ra_storage_offset_from_sp_by_8: 1,
        })
    );
}

#[test]
fn sp_row_errors() {
    assert_eq!(
        translate_into_unwind_rule(&sp_cfa(-16), None, None),
        Err(ConversionError::SpOffsetDoesNotFit)
    );
    assert_eq!(
        translate_into_unwind_rule(&sp_cfa(16 * 65536), None, None),
        Err(ConversionError::SpOffsetDoesNotFit)
    );
    assert_eq!(
        translate_into_unwind_rule(&sp_cfa(16), Some(&RegisterRule::Offset(-16)), None),
        Err(ConversionError::RestoringFpButNotRa)
    );
    assert_eq!(
        translate_into_unwind_rule(&sp_cfa(16), None, Some(&RegisterRule::Offset(8 * 40000))),
        Err(ConversionError::RaStorageOffsetDoesNotFit)
    );
    assert_eq!(
        translate_into_unwind_rule(
            &sp_cfa(16),
            Some(&RegisterRule::Offset(-8 * 40000)),
            Some(&RegisterRule::Offset(-8))
        ),
        Err(ConversionError::FpStorageOffsetDoesNotFit)
    );
    assert_eq!(
        translate_into_unwind_rule(&sp_cfa(16), None, Some(&RegisterRule::Expression)),
        Err(ConversionError::RegisterNotStoredRelativeToCfa)
    );
    assert_eq!(
        translate_into_unwind_rule(&CfaRule::Expression, None, None),
        Err(ConversionError::CfaIsExpression)
    );
}

#[test]
fn fp_rows() {
    assert_eq!(
        translate_into_unwind_rule(
            &fp_cfa(16),
            Some(&RegisterRule::Offset(-16)),
            Some(&RegisterRule::Offset(-8))
        ),
        Ok(UnwindRuleLoongArch64::UseFramepointerWithOffsets {
            sp_offset_from_fp_by_8: 2,
            fp_storage_offset_from_fp_by_8: 0,
            ra_storage_offset_from_fp_by_8: 1,
        })
    );
    assert_eq!(
        translate_into_unwind_rule(&fp_cfa(0), Some(&RegisterRule::Offset(-16)), None),
        Err(ConversionError::FramePointerRuleDoesNotRestoreRa)
    );
    assert_eq!(
        translate_into_unwind_rule(&fp_cfa(0), None, Some(&RegisterRule::Offset(-8))),
        Err(ConversionError::FramePointerRuleDoesNotRestoreFp)
    );
    assert_eq!(
        translate_into_unwind_rule(
            &fp_cfa(-8),
            Some(&RegisterRule::Offset(-16)),
            Some(&RegisterRule::Offset(-8))
        ),
        Err(ConversionError::SpOffsetFromFpDoesNotFit)
    );
}

#[test]
fn translated_rows_do_not_touch_the_registers() {
    let mut regs = UnwindRegsLoongArch64::new(1, 2, 3);
    let mut eval_cfa = |_r: UnwindRegsLoongArch64| -> Option<u64> { panic!("not evaluated") };
    let mut eval_register =
        |_reg: u16, _cfa: u64, _v: u64, _r: UnwindRegsLoongArch64| -> Option<u64> {
            panic!("not evaluated")
        };
    let res = <ArchLoongArch64 as DwarfUnwinding>::unwind_frame(
        &fp_cfa(0),
        Some(&RegisterRule::Offset(-16)),
        Some(&RegisterRule::Offset(-8)),
        &mut regs,
        false,
        &mut eval_cfa,
        &mut eval_register,
    );
    assert_eq!(res, Ok(UnwindResult::ExecRule(UnwindRuleLoongArch64::UseFramePointer)));
    assert_eq!(regs, UnwindRegsLoongArch64::new(1, 2, 3));
}

#[test]
fn generic_path_evaluates_the_rules() {
    let mut regs = UnwindRegsLoongArch64::new(0x1000, 0x10, 0x30);
    let mut eval_cfa = |r: UnwindRegsLoongArch64| Some(r.sp() + 0x40);
    let mut seen = Vec::new();
    let mut eval_register = |reg: u16, cfa: u64, v: u64, _r: UnwindRegsLoongArch64| {
        seen.push(reg);
        if reg == REG_FP { Some(cfa + v) } else { Some(0x4242) }
    };
    let res = <ArchLoongArch64 as DwarfUnwinding>::unwind_frame(
        &CfaRule::Expression,
        None,
        None,
        &mut regs,
        false,
        &mut eval_cfa,
        &mut eval_register,
    );
    assert_eq!(res, Ok(UnwindResult::Uncacheable(0x4242)));
    assert_eq!(regs, UnwindRegsLoongArch64::new(0x4242, 0x50, 0x80));
    assert_eq!(seen, vec![REG_FP, REG_RA]);
}

#[test]
fn generic_path_errors() {
    let expr = CfaRule::Expression;
    let mut regs = UnwindRegsLoongArch64::new(0x1000, 0x10, 0x30);
    let mut no_register = |_: u16, _: u64, _: u64, _: UnwindRegsLoongArch64| None;
    let mut no_cfa = |_: UnwindRegsLoongArch64| None;
    let res = ArchLoongArch64::unwind_frame(
        &expr, None, None, &mut regs, false, &mut no_cfa, &mut no_register,
    );
    assert_eq!(res, Err(DwarfUnwinderError::CouldNotRecoverCfa));

    let mut low_cfa = |_: UnwindRegsLoongArch64| Some(0x10);
    let res = ArchLoongArch64::unwind_frame(
        &expr, None, None, &mut regs, false, &mut low_cfa, &mut no_register,
    );
    assert_eq!(res, Err(DwarfUnwinderError::StackPointerMovedBackwards));

    let mut cfa = |_: UnwindRegsLoongArch64| Some(0x50);
    let res = ArchLoongArch64::unwind_frame(
        &expr, None, None, &mut regs, false, &mut cfa, &mut no_register,
    );
    assert_eq!(res, Err(DwarfUnwinderError::CouldNotRecoverFramePointer));

    let mut only_fp = |reg: u16, _: u64, _: u64, _: UnwindRegsLoongArch64| {
        if reg == REG_FP { Some(0x90) } else { None }
    };
    let res = ArchLoongArch64::unwind_frame(
        &expr, None, None, &mut regs, false, &mut cfa, &mut only_fp,
    );
    assert_eq!(res, Err(DwarfUnwinderError::CouldNotRecoverReturnAddress));
    assert_eq!(regs, UnwindRegsLoongArch64::new(0x1000, 0x10, 0x30));
}

#[test]
fn generic_path_is_lenient_on_the_first_frame() {
    let mut regs = UnwindRegsLoongArch64::new(0x1000, 0x10, 0x30);
    let mut cfa = |_: UnwindRegsLoongArch64| Some(0x8);
    let mut no_register = |_: u16, _: u64, _: u64, _: UnwindRegsLoongArch64| None;
    let res = ArchLoongArch64::unwind_frame(
        &CfaRule::Expression,
        None,
        None,
        &mut regs,
        true,
        &mut cfa,
        &mut no_register,
    );
    assert_eq!(res, Ok(UnwindResult::Uncacheable(0x1000)));
    assert_eq!(regs, UnwindRegsLoongArch64::new(0x1000, 0x8, 0x30));
}

#[test]
fn uncovered_addresses_use_the_fallback() {
    assert_eq!(
        ArchLoongArch64::rule_if_uncovered_by_fde(),
        UnwindRuleLoongArch64::NoOpIfFirstFrameOtherwiseFp
    );
}

#[test]
fn translated_sp_row_reads_at_cfa_offsets() {
    // CFA = sp + 32, fp saved at CFA - 16, ra saved at CFA - 8.
    let rule = translate_into_unwind_rule(
        &sp_cfa(32),
        Some(&RegisterRule::Offset(-16)),
        Some(&RegisterRule::Offset(-8)),
    )
    .unwrap();
    let stack = [0u64, 0, 0, 0, 0, 0, 0x90, 0x4242];
    let mut read_stack = |addr: u64| Ok(stack[(addr / 8) as usize]);
    let mut regs = UnwindRegsLoongArch64::new(0x1000, 0x20, 0x28);
    assert_eq!(rule.exec(false, &mut regs, &mut read_stack), Ok(Some(0x4242)));
    assert_eq!(regs, UnwindRegsLoongArch64::new(0x4242, 0x40, 0x90));
}

#[test]
fn translated_sp_row_saving_ra_alone() {
    // CFA = sp + 16, ra saved at CFA - 8, fp left as it is.
    let rule = translate_into_unwind_rule(&sp_cfa(16), None, Some(&RegisterRule::Offset(-8)))
        .unwrap();
    let stack = [0u64, 0, 0, 0x4242, 0, 0, 0, 0];
    let mut read_stack = |addr: u64| Ok(stack[(addr / 8) as usize]);
    let mut regs = UnwindRegsLoongArch64::new(0x1000, 0x10, 0x77);
    assert_eq!(rule.exec(false, &mut regs, &mut read_stack), Ok(Some(0x4242)));
    assert_eq!(regs, UnwindRegsLoongArch64::new(0x4242, 0x20, 0x77));
}

#[test]
fn translated_sp_row_saving_neither() {
    let mut read_stack = |_addr: u64| Ok(0);
    let rule = translate_into_unwind_rule(&sp_cfa(32), None, None).unwrap();
    let mut regs = UnwindRegsLoongArch64::new(0x1000, 0x10, 0x77);
    assert_eq!(rule.exec(true, &mut regs, &mut read_stack), Ok(Some(0x1000)));
    assert_eq!(regs, UnwindRegsLoongArch64::new(0x1000, 0x30, 0x77));
    assert_eq!(rule.exec(false, &mut regs, &mut read_stack), Err(framehop::Error::DidNotAdvance));

    let rule = translate_into_unwind_rule(&sp_cfa(32), None, Some(&RegisterRule::Undefined))
        .unwrap();
    assert_eq!(rule.exec(false, &mut regs, &mut read_stack), Ok(None));
    assert_eq!(rule.exec(true, &mut regs, &mut read_stack), Ok(Some(0x1000)));
    assert_eq!(regs, UnwindRegsLoongArch64::new(0x1000, 0x50, 0x77));
}
