use framehop::{Error, UnwindRegsLoongArch64, UnwindRuleLoongArch64};

#[test]
fn test_basic() {
    let stack = [
        0, 0, 0, 0, 0x50, 0x100200, 0, 0, 0x80, 0x100100, 0, 0, 0, 0, 0, 0,
    ];
    let mut read_stack = |addr| Ok(stack[(addr / 8) as usize]);
    let mut regs = UnwindRegsLoongArch64::new(0x100300, 0x10, 0x30);

    let res = UnwindRuleLoongArch64::NoOp.exec(true, &mut regs, &mut read_stack);
    assert_eq!(res, Ok(Some(0x100300)));
    assert_eq!(regs.sp(), 0x10);

    let res = UnwindRuleLoongArch64::UseFramePointer.exec(false, &mut regs, &mut read_stack);
    assert_eq!(res, Ok(Some(0x100200)));
    assert_eq!(regs.sp(), 0x30);
    assert_eq!(regs.fp(), 0x50);

    let res = UnwindRuleLoongArch64::UseFramePointer.exec(false, &mut regs, &mut read_stack);
    assert_eq!(res, Ok(Some(0x100100)));
    assert_eq!(regs.sp(), 0x50);
    assert_eq!(regs.fp(), 0x80);

    let res = UnwindRuleLoongArch64::UseFramePointer.exec(false, &mut regs, &mut read_stack);
    assert_eq!(res, Ok(None));
}

#[test]
fn test_fallback_returns_last_valid_return_address() {
    let stack = [0, 0, 0, 0x100100, 0, 0, 0, 0];
    let mut read_stack = |addr| Ok(stack[(addr / 8) as usize]);
    let mut regs = UnwindRegsLoongArch64::new(0x100200, 0x10, 0x20);

    let res = UnwindRuleLoongArch64::NoOpIfFirstFrameOtherwiseFp.exec(
        false,
        &mut regs,
        &mut read_stack,
    );
    assert_eq!(res, Ok(Some(0x100100)));
    assert_eq!(regs.sp(), 0x20);
    assert_eq!(regs.fp(), 0);
}

#[test]
fn test_frame_pointer_must_advance() {
    let stack = [0, 0, 0, 0, 0x20, 0x100100, 0, 0];
    let mut read_stack = |addr| Ok(stack[(addr / 8) as usize]);
    let mut regs = UnwindRegsLoongArch64::new(0x100200, 0x10, 0x30);

    let res = UnwindRuleLoongArch64::UseFramePointer.exec(false, &mut regs, &mut read_stack);
    assert_eq!(res, Err(Error::FramepointerUnwindingMovedBackwards));
}

/// A stack of eight words, recording the addresses that were read.
fn reader(
    stack: [u64; 8],
    log: &mut Vec<u64>,
) -> impl FnMut(u64) -> Result<u64, ()> + '_ {
    move |addr| {
        log.push(addr);
        if addr % 8 == 0 && ((addr / 8) as usize) < stack.len() {
            Ok(stack[(addr / 8) as usize])
        } else {
            Err(())
        }
    }
}

#[test]
fn noop_is_only_for_the_first_frame() {
    let mut log = Vec::new();
    let mut read_stack = reader([0; 8], &mut log);
    let mut regs = UnwindRegsLoongArch64::new(0x1000, 0x10, 0x30);
    let res = UnwindRuleLoongArch64::NoOp.exec(false, &mut regs, &mut read_stack);
    assert_eq!(res, Err(Error::DidNotAdvance));
    assert_eq!(regs, UnwindRegsLoongArch64::new(0x1000, 0x10, 0x30));
    drop(read_stack);
    assert!(log.is_empty());
}

#[test]
fn offset_sp_moves_sp_on_the_first_frame() {
    let mut log = Vec::new();
    let mut read_stack = reader([0; 8], &mut log);
    let mut regs = UnwindRegsLoongArch64::new(0x1000, 0x10, 0x30);
    let rule = UnwindRuleLoongArch64::OffsetSp { sp_offset_by_16: 3 };
    assert_eq!(rule.exec(true, &mut regs, &mut read_stack), Ok(Some(0x1000)));
    assert_eq!(regs.sp(), 0x10 + 48);
    assert_eq!(regs.fp(), 0x30);
    assert_eq!(rule.exec(false, &mut regs, &mut read_stack), Err(Error::DidNotAdvance));
}

#[test]
fn offset_sp_overflow_is_reported() {
    let mut read_stack = |_addr| Ok(0);
    let mut regs = UnwindRegsLoongArch64::new(0x1000, u64::MAX - 8, 0x30);
    let rule = UnwindRuleLoongArch64::OffsetSp { sp_offset_by_16: 1 };
    assert_eq!(rule.exec(true, &mut regs, &mut read_stack), Err(Error::IntegerOverflow));
    assert_eq!(regs.sp(), u64::MAX - 8);
}

#[test]
fn undefined_ra_ends_the_stack_after_the_first_frame() {
    let mut read_stack = |_addr| Ok(0);
    let mut regs = UnwindRegsLoongArch64::new(0x1000, 0x10, 0x30);
    let rule = UnwindRuleLoongArch64::OffsetSpIfFirstFrameOtherwiseStackEndsHere {
        sp_offset_by_16: 2,
    };
    assert_eq!(rule.exec(false, &mut regs, &mut read_stack), Ok(None));
    assert_eq!(regs, UnwindRegsLoongArch64::new(0x1000, 0x10, 0x30));
    assert_eq!(rule.exec(true, &mut regs, &mut read_stack), Ok(Some(0x1000)));
    assert_eq!(regs.sp(), 0x30);
}

#[test]
fn restore_ra_reads_at_sp_offset() {
    let mut log = Vec::new();
    let mut read_stack = reader([0, 0, 0, 0x4242, 0, 0, 0, 0], &mut log);
    let mut regs = UnwindRegsLoongArch64::new(0x1000, 0x8, 0x30);
    let rule = UnwindRuleLoongArch64::OffsetSpAndRestoreRa {
        sp_offset_by_16: 1,
        ra_storage_offset_from_sp_by_8: 2,
    };
    assert_eq!(rule.exec(false, &mut regs, &mut read_stack), Ok(Some(0x4242)));
    assert_eq!(regs, UnwindRegsLoongArch64::new(0x4242, 0x18, 0x30));
    drop(read_stack);
    assert_eq!(log, vec![0x18]);
}

#[test]
fn restore_ra_with_zero_sp_offset_did_not_advance() {
    let mut read_stack = |_addr| Ok(0x4242);
    let mut regs = UnwindRegsLoongArch64::new(0x1000, 0x8, 0x30);
    let rule = UnwindRuleLoongArch64::OffsetSpAndRestoreRa {
        sp_offset_by_16: 0,
        ra_storage_offset_from_sp_by_8: 1,
    };
    assert_eq!(rule.exec(false, &mut regs, &mut read_stack), Err(Error::DidNotAdvance));
    assert_eq!(regs, UnwindRegsLoongArch64::new(0x1000, 0x8, 0x30));
    // The first frame may keep its stack pointer.
    assert_eq!(rule.exec(true, &mut regs, &mut read_stack), Ok(Some(0x4242)));
}

#[test]
fn restore_fp_and_ra_reads_ra_then_fp() {
    let mut log = Vec::new();
    let mut read_stack = reader([0, 0, 0x77, 0x4242, 0, 0, 0, 0], &mut log);
    let mut regs = UnwindRegsLoongArch64::new(0x1000, 0x0, 0x30);
    let rule = UnwindRuleLoongArch64::OffsetSpAndRestoreFpAndRa {
        sp_offset_by_16: 2,
        fp_storage_offset_from_sp_by_8: 2,
        ra_storage_offset_from_sp_by_8: 3,
    };
    assert_eq!(rule.exec(false, &mut regs, &mut read_stack), Ok(Some(0x4242)));
    assert_eq!(regs, UnwindRegsLoongArch64::new(0x4242, 0x20, 0x77));
    drop(read_stack);
    assert_eq!(log, vec![0x18, 0x10]);
}

#[test]
fn negative_storage_offset_below_zero_overflows() {
    let mut read_stack = |_addr| Ok(1);
    let mut regs = UnwindRegsLoongArch64::new(0x1000, 0x8, 0x30);
    let rule = UnwindRuleLoongArch64::OffsetSpAndRestoreRa {
        sp_offset_by_16: 1,
        ra_storage_offset_from_sp_by_8: -2,
    };
    assert_eq!(rule.exec(false, &mut regs, &mut read_stack), Err(Error::IntegerOverflow));
}

#[test]
fn unreadable_stack_is_reported_with_its_address() {
    let mut read_stack = |_addr| Err(());
    let mut regs = UnwindRegsLoongArch64::new(0x1000, 0x10, 0x30);
    let res = UnwindRuleLoongArch64::UseFramePointer.exec(false, &mut regs, &mut read_stack);
    assert_eq!(res, Err(Error::CouldNotReadStack(0x28)));
    assert_eq!(regs, UnwindRegsLoongArch64::new(0x1000, 0x10, 0x30));
}

#[test]
fn unreadable_fp_slot_is_reported_with_its_address() {
    let mut read_stack = |addr| if addr == 0x28 { Ok(0x5000) } else { Err(()) };
    let mut regs = UnwindRegsLoongArch64::new(0x1000, 0x10, 0x30);
    let res = UnwindRuleLoongArch64::UseFramePointer.exec(false, &mut regs, &mut read_stack);
    assert_eq!(res, Err(Error::CouldNotReadStack(0x20)));
}

#[test]
fn frame_pointer_below_sixteen_overflows() {
    let mut read_stack = |_addr| Ok(1);
    let mut regs = UnwindRegsLoongArch64::new(0x1000, 0x0, 0x8);
    let res = UnwindRuleLoongArch64::UseFramePointer.exec(true, &mut regs, &mut read_stack);
    assert_eq!(res, Err(Error::IntegerOverflow));
}

#[test]
fn zero_return_address_ends_the_stack() {
    let mut read_stack = |addr| if addr == 0x28 { Ok(0) } else { Ok(0x80) };
    let mut regs = UnwindRegsLoongArch64::new(0x1000, 0x10, 0x30);
    let res = UnwindRuleLoongArch64::UseFramePointer.exec(false, &mut regs, &mut read_stack);
    assert_eq!(res, Ok(None));
    assert_eq!(regs, UnwindRegsLoongArch64::new(0x1000, 0x10, 0x30));
}

#[test]
fn fallback_rule_refuses_a_frame_pointer_below_sp() {
    let mut read_stack = |_addr| Ok(0x80);
    let mut regs = UnwindRegsLoongArch64::new(0x1000, 0x40, 0x30);
    let res = UnwindRuleLoongArch64::NoOpIfFirstFrameOtherwiseFp.exec(
        false,
        &mut regs,
        &mut read_stack,
    );
    assert_eq!(res, Err(Error::FramepointerUnwindingMovedBackwards));
    let res = UnwindRuleLoongArch64::NoOpIfFirstFrameOtherwiseFp.exec(
        true,
        &mut regs,
        &mut read_stack,
    );
    assert_eq!(res, Ok(Some(0x1000)));
    assert_eq!(regs, UnwindRegsLoongArch64::new(0x1000, 0x40, 0x30));
}

#[test]
fn frame_pointer_with_offsets() {
    let mut log = Vec::new();
    let mut read_stack = reader([0, 0, 0, 0, 0x60, 0x4242, 0, 0], &mut log);
    let mut regs = UnwindRegsLoongArch64::new(0x1000, 0x8, 0x10);
    let rule = UnwindRuleLoongArch64::UseFramepointerWithOffsets {
        sp_offset_from_fp_by_8: 4,
        fp_storage_offset_from_fp_by_8: 2,
        ra_storage_offset_from_fp_by_8: 3,
    };
    assert_eq!(rule.exec(false, &mut regs, &mut read_stack), Ok(Some(0x4242)));
    assert_eq!(regs, UnwindRegsLoongArch64::new(0x4242, 0x30, 0x60));
    drop(read_stack);
    assert_eq!(log, vec![0x28, 0x20]);
}

#[test]
fn frame_pointer_with_offsets_zero_fp_ends_the_stack() {
    let mut read_stack = |addr| if addr == 0x20 { Ok(0) } else { Ok(0x4242) };
    let mut regs = UnwindRegsLoongArch64::new(0x1000, 0x8, 0x10);
    let rule = UnwindRuleLoongArch64::UseFramepointerWithOffsets {
        sp_offset_from_fp_by_8: 4,
        fp_storage_offset_from_fp_by_8: 2,
        ra_storage_offset_from_fp_by_8: 3,
    };
    assert_eq!(rule.exec(false, &mut regs, &mut read_stack), Ok(None));
    assert_eq!(regs, UnwindRegsLoongArch64::new(0x1000, 0x8, 0x10));
}

#[test]
fn default_rules() {
    assert_eq!(UnwindRuleLoongArch64::rule_for_stub_functions(), UnwindRuleLoongArch64::NoOp);
    assert_eq!(UnwindRuleLoongArch64::rule_for_function_start(), UnwindRuleLoongArch64::NoOp);
    assert_eq!(UnwindRuleLoongArch64::fallback_rule(), UnwindRuleLoongArch64::UseFramePointer);
}
