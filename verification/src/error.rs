use vstd::prelude::*;

verus! {

/// The reasons for which executing an unwind rule can fail.
#[derive(Clone, Copy, Debug, PartialEq, Eq, Structural)]
pub enum Error {
    /// The unwind did not make progress: the stack pointer stayed where it was.
    DidNotAdvance,
    /// Frame pointer unwinding yielded a frame pointer or stack pointer that
    /// does not lie above the current one.
    FramepointerUnwindingMovedBackwards,
    /// An address computation left the range of `u64`.
    IntegerOverflow,
    /// The stack could not be read at the given address.
    CouldNotReadStack(u64),
}

} // verus!

verus! {

/// The reasons for which DWARF call frame information cannot be expressed as
/// an [`UnwindRuleLoongArch64`](crate::UnwindRuleLoongArch64).
#[derive(Clone, Copy, Debug, PartialEq, Eq, Structural)]
pub enum ConversionError {
    /// The CFA is computed by a DWARF expression.
    CfaIsExpression,
    /// The CFA is an offset from a register other than sp or fp.
    CfaIsOffsetFromUnknownRegister,
    /// The stack pointer offset does not fit the rule.
    SpOffsetDoesNotFit,
    /// The stack pointer's offset from the frame pointer does not fit the rule.
    SpOffsetFromFpDoesNotFit,
    /// The storage offset of the return address does not fit the rule.
    RaStorageOffsetDoesNotFit,
    /// The storage offset of the frame pointer does not fit the rule.
    FpStorageOffsetDoesNotFit,
    /// The frame pointer is restored from the stack but the return address is not.
    RestoringFpButNotRa,
    /// A register is restored in some other way than from an offset of the CFA.
    RegisterNotStoredRelativeToCfa,
    /// A frame-pointer-based CFA without a rule that restores the return address.
    FramePointerRuleDoesNotRestoreRa,
    /// A frame-pointer-based CFA without a rule that restores the frame pointer.
    FramePointerRuleDoesNotRestoreFp,
}

/// The reasons for which unwinding a frame through DWARF call frame
/// information can fail.
#[derive(Clone, Copy, Debug, PartialEq, Eq, Structural)]
pub enum DwarfUnwinderError {
    /// The CFA could not be computed.
    CouldNotRecoverCfa,
    /// The CFA does not lie above the current stack pointer.
    StackPointerMovedBackwards,
    /// The caller's frame pointer could not be recovered.
    CouldNotRecoverFramePointer,
    /// The caller's return address could not be recovered.
    CouldNotRecoverReturnAddress,
}

} // verus!
