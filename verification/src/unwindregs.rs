use vstd::prelude::*;

verus! {

/// The registers used for unwinding on LoongArch64. We only need ra (r1),
/// sp (r3), and fp (r22 / s0).
#[derive(Clone, Copy, Debug, PartialEq, Eq, Structural)]
pub struct UnwindRegsLoongArch64 {
    ra: u64,
    sp: u64,
    fp: u64,
}

/// The mathematical value of a register set.
pub struct RegsModel {
    pub ra: u64,
    pub sp: u64,
    pub fp: u64,
}

impl View for UnwindRegsLoongArch64 {
    type V = RegsModel;

    closed spec fn view(&self) -> RegsModel {
        RegsModel { ra: self.ra, sp: self.sp, fp: self.fp }
    }
}

impl UnwindRegsLoongArch64 {
    /// Create a set of unwind register values.
    pub fn new(ra: u64, sp: u64, fp: u64) -> (r: Self)
        ensures
            r@ == (RegsModel { ra, sp, fp }),
    {
        Self { ra, sp, fp }
    }

    /// Get the stack pointer value (r3).
    pub fn sp(&self) -> (r: u64)
        ensures
            r == self@.sp,
    {
        self.sp
    }

    /// Set the stack pointer value (r3).
    pub fn set_sp(&mut self, sp: u64)
        ensures
            final(self)@ == (RegsModel { sp, ..old(self)@ }),
    {
        self.sp = sp
    }

    /// Get the frame pointer value (r22 / s0).
    pub fn fp(&self) -> (r: u64)
        ensures
            r == self@.fp,
    {
        self.fp
    }

    /// Set the frame pointer value (r22 / s0).
    pub fn set_fp(&mut self, fp: u64)
        ensures
            final(self)@ == (RegsModel { fp, ..old(self)@ }),
    {
        self.fp = fp
    }

    /// Get the return address register value (r1).
    pub fn ra(&self) -> (r: u64)
        ensures
            r == self@.ra,
    {
        self.ra
    }

    /// Set the return address register value (r1).
    pub fn set_ra(&mut self, ra: u64)
        ensures
            final(self)@ == (RegsModel { ra, ..old(self)@ }),
    {
        self.ra = ra
    }
}

} // verus!
