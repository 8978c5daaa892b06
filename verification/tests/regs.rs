use framehop::{UnwindRegsLoongArch64, REG_FP, REG_RA, REG_SP};

#[test]
fn getters_and_setters() {
    let mut regs = UnwindRegsLoongArch64::new(1, 2, 3);
    assert_eq!((regs.ra(), regs.sp(), regs.fp()), (1, 2, 3));
    regs.set_ra(10);
    regs.set_sp(20);
    regs.set_fp(30);
    assert_eq!((regs.ra(), regs.sp(), regs.fp()), (10, 20, 30));
}

#[test]
fn get_by_dwarf_register() {
    let regs = UnwindRegsLoongArch64::new(1, 2, 3);
    assert_eq!(regs.get(REG_RA), Some(1));
    assert_eq!(regs.get(REG_SP), Some(2));
    assert_eq!(regs.get(REG_FP), Some(3));
    assert_eq!(regs.get(gimli::LoongArch::R4.0), None);
}

#[test]
fn register_numbers_are_gimlis() {
    assert_eq!(REG_RA, gimli::LoongArch::R1.0);
    assert_eq!(REG_SP, gimli::LoongArch::R3.0);
    assert_eq!(REG_FP, gimli::LoongArch::R22.0);
}
