//! Stack unwinding rules for the LoongArch64 architecture.
//!
//! The library describes how the caller's `ra`, `sp` and `fp` registers are
//! recovered from the callee's registers and the stack
//! ([`UnwindRuleLoongArch64::exec`]), translates rows of DWARF call frame
//! information into such rules ([`translate_into_unwind_rule`]), unwinds a
//! frame through DWARF ([`DwarfUnwinding`]) and caches rules by address
//! ([`RuleCache`]).
//!
//! The `*_laws` modules state and prove the properties that hold across
//! these operations.

pub mod arch;
pub mod cache;
pub mod cache_laws;
pub mod dwarf;
pub mod dwarf_laws;
pub mod error;
pub mod instruction_analysis;
pub mod macho;
pub mod rule_formula_laws;
pub mod translation_laws;
pub mod unwind_laws;
pub mod unwind_rule;
pub mod unwindregs;

pub use arch::ArchLoongArch64;
pub use cache::{
    AllocationPolicy, Cache, CacheEntry, CacheHandle, CacheLoongArch64, CacheResult, CacheStats,
    MayAllocateDuringUnwind, MustNotAllocateDuringUnwind, RuleCache, SlotLookup,
    CACHE_ENTRY_COUNT,
};
pub use dwarf::{
    register_rule_to_cfa_offset, translate_into_unwind_rule, translation_would_overflow,
    CfaRule, DwarfUnwinding, RegisterRule, UnwindResult, REG_FP, REG_RA, REG_SP,
};
pub use error::{ConversionError, DwarfUnwinderError, Error};
pub use instruction_analysis::{
    unwind_rule_from_detected_epilogue, unwind_rule_from_detected_prologue,
};
pub use macho::{CompactUnwindInfoUnwinderError, CompactUnwindInfoUnwinding, CuiUnwindResult};
pub use unwind_rule::UnwindRuleLoongArch64;
pub use unwindregs::{RegsModel, UnwindRegsLoongArch64};
