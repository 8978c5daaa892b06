use vstd::prelude::*;

verus! {

/// The LoongArch64 CPU architecture.
pub struct ArchLoongArch64;

} // verus!
