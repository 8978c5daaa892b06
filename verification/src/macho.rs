use vstd::prelude::*;

use crate::arch::ArchLoongArch64;
use crate::unwind_rule::UnwindRuleLoongArch64;

verus! {

#[verifier::external_type_specification]
#[verifier::external_body]
pub struct ExFunction(macho_unwind_info::Function);

/// The reasons for which unwinding through Mach-O compact unwind info fails.
#[derive(Clone, Copy, Debug, PartialEq, Eq, Structural)]
pub enum CompactUnwindInfoUnwinderError {
    /// Compact unwind info is not supported for LoongArch64.
    Loongarch64Unsupported,
}

/// What unwinding a frame through compact unwind info gives.
#[derive(Debug, PartialEq, Eq)]
pub enum CuiUnwindResult<R> {
    /// The rule to execute for the frame.
    ExecRule(R),
    /// The function's unwind information is in DWARF, at this offset of the
    /// eh_frame section.
    NeedDwarf(u32),
}

/// Unwinding through the compact unwind info of Mach-O binaries.
pub trait CompactUnwindInfoUnwinding {
    type UnwindRule;

    /// The rule for a frame of `function` at the given offset.
    fn unwind_frame(
        function: macho_unwind_info::Function,
        is_first_frame: bool,
        address_offset_within_function: usize,
        function_bytes: Option<&[u8]>,
    ) -> Result<CuiUnwindResult<Self::UnwindRule>, CompactUnwindInfoUnwinderError>;

    /// The rule for a frame in the stub helper, at the given offset.
    fn rule_for_stub_helper(offset: u32) -> Result<
        CuiUnwindResult<Self::UnwindRule>,
        CompactUnwindInfoUnwinderError,
    >;
}

impl CompactUnwindInfoUnwinding for ArchLoongArch64 {
    type UnwindRule = UnwindRuleLoongArch64;

    /// Compact unwind info is not supported on LoongArch64: always fails.
    fn unwind_frame(
        _function: macho_unwind_info::Function,
        _is_first_frame: bool,
        _address_offset_within_function: usize,
        _function_bytes: Option<&[u8]>,
    ) -> (r: Result<CuiUnwindResult<UnwindRuleLoongArch64>, CompactUnwindInfoUnwinderError>)
        ensures
            r == Err::<CuiUnwindResult<UnwindRuleLoongArch64>, CompactUnwindInfoUnwinderError>(
                CompactUnwindInfoUnwinderError::Loongarch64Unsupported,
            ),
    {
        Err(CompactUnwindInfoUnwinderError::Loongarch64Unsupported)
    }

    /// Compact unwind info is not supported on LoongArch64: always fails.
    fn rule_for_stub_helper(_offset: u32) -> (r: Result<
        CuiUnwindResult<UnwindRuleLoongArch64>,
        CompactUnwindInfoUnwinderError,
    >)
        ensures
            r == Err::<CuiUnwindResult<UnwindRuleLoongArch64>, CompactUnwindInfoUnwinderError>(
                CompactUnwindInfoUnwinderError::Loongarch64Unsupported,
            ),
    {
        Err(CompactUnwindInfoUnwinderError::Loongarch64Unsupported)
    }
}

} // verus!
