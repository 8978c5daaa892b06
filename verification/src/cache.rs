use vstd::prelude::*;

use core::marker::PhantomData;

use crate::error::Error;
use crate::unwind_rule::UnwindRuleLoongArch64;
use crate::unwindregs::{RegsModel, UnwindRegsLoongArch64};

verus! {

/// The number of slots of the rule cache.
pub const CACHE_ENTRY_COUNT: usize = 509;

/// Whether the unwinder may allocate memory while it unwinds.
pub trait AllocationPolicy {

}

/// The unwinder may allocate memory during unwinding.
pub struct MayAllocateDuringUnwind;

/// The unwinder must not allocate memory during unwinding.
pub struct MustNotAllocateDuringUnwind;

impl AllocationPolicy for MayAllocateDuringUnwind {

}

impl AllocationPolicy for MustNotAllocateDuringUnwind {

}

/// How often lookups in the rule cache hit, and why the others missed.
#[derive(Clone, Copy, Debug, PartialEq, Eq, Structural)]
pub struct CacheStats {
    /// Lookups that found a rule for the address.
    pub hit_count: u64,
    /// Lookups whose slot was empty.
    pub miss_empty_slot_count: u64,
    /// Lookups whose slot held a rule of another modules generation.
    pub miss_wrong_modules_count: u64,
    /// Lookups whose slot held a rule for another address.
    pub miss_wrong_address_count: u64,
}

/// The counters of a cache that has seen no lookup.
pub open spec fn zero_stats() -> CacheStats {
    CacheStats {
        hit_count: 0,
        miss_empty_slot_count: 0,
        miss_wrong_modules_count: 0,
        miss_wrong_address_count: 0,
    }
}

/// `n + 1`, held at `u64::MAX`.
pub open spec fn count_up(n: u64) -> u64 {
    if n < u64::MAX {
        (n + 1) as u64
    } else {
        n
    }
}

/// What the slot of `address` holds for a lookup of `address` in
/// `modules_generation`.
pub enum SlotLookup<R> {
    EmptySlot,
    WrongModules,
    WrongAddress,
    Found(R),
}

/// The slot that `address` maps to.
pub open spec fn slot_of(address: u64) -> int {
    (address % (CACHE_ENTRY_COUNT as u64)) as int
}

/// The outcome of looking up `address` in `modules_generation` among the
/// cache entries.
pub open spec fn lookup_slot<R>(
    entries: Seq<Option<CacheEntry<R>>>,
    address: u64,
    modules_generation: u16,
) -> SlotLookup<R> {
    match entries[slot_of(address)] {
        None => SlotLookup::EmptySlot,
        Some(entry) => {
            if entry.modules_generation != modules_generation {
                SlotLookup::WrongModules
            } else if entry.address != address {
                SlotLookup::WrongAddress
            } else {
                SlotLookup::Found(entry.unwind_rule)
            }
        },
    }
}

/// The counters after a lookup with the given outcome.
pub open spec fn counted<R>(before: CacheStats, lookup: SlotLookup<R>) -> CacheStats {
    match lookup {
        SlotLookup::EmptySlot => CacheStats {
            miss_empty_slot_count: count_up(before.miss_empty_slot_count),
            ..before
        },
        SlotLookup::WrongModules => CacheStats {
            miss_wrong_modules_count: count_up(before.miss_wrong_modules_count),
            ..before
        },
        SlotLookup::WrongAddress => CacheStats {
            miss_wrong_address_count: count_up(before.miss_wrong_address_count),
            ..before
        },
        SlotLookup::Found(_) => CacheStats { hit_count: count_up(before.hit_count), ..before },
    }
}

/// The entries after storing `unwind_rule` with `handle`.
pub open spec fn stored<R>(
    entries: Seq<Option<CacheEntry<R>>>,
    handle: CacheHandle,
    unwind_rule: R,
) -> Seq<Option<CacheEntry<R>>> {
    entries.update(
        handle.slot() as int,
        Some(
            CacheEntry {
                address: handle.address(),
                modules_generation: handle.modules_generation(),
                unwind_rule,
            },
        ),
    )
}

/// The sum of the counters.
pub open spec fn lookup_total(stats: CacheStats) -> int {
    stats.hit_count + stats.miss_empty_slot_count + stats.miss_wrong_modules_count
        + stats.miss_wrong_address_count
}

impl CacheStats {
    /// Counters at zero.
    pub fn new() -> (s: Self)
        ensures
            s == zero_stats(),
    {
        CacheStats {
            hit_count: 0,
            miss_empty_slot_count: 0,
            miss_wrong_modules_count: 0,
            miss_wrong_address_count: 0,
        }
    }
}

/// A cached rule: the rule for `address` in modules generation
/// `modules_generation`.
#[derive(Clone, Copy, Debug, PartialEq, Eq)]
pub struct CacheEntry<R> {
    pub address: u64,
    pub modules_generation: u16,
    pub unwind_rule: R,
}

/// Where a rule found after a missed lookup is to be stored.
#[derive(Clone, Copy, Debug, PartialEq, Eq, Structural)]
pub struct CacheHandle {
    slot: u16,
    address: u64,
    modules_generation: u16,
}

impl CacheHandle {
    /// The slot that the handle's address maps to.
    pub closed spec fn slot(self) -> u16 {
        self.slot
    }

    /// The address that was looked up.
    pub closed spec fn address(self) -> u64 {
        self.address
    }

    /// The modules generation of the lookup.
    pub closed spec fn modules_generation(self) -> u16 {
        self.modules_generation
    }

    /// The handle is the one for `address` in `modules_generation`.
    pub open spec fn is_for(self, address: u64, modules_generation: u16) -> bool {
        &&& self.slot() == address % (CACHE_ENTRY_COUNT as u64)
        &&& self.address() == address
        &&& self.modules_generation() == modules_generation
    }

    #[verifier::type_invariant]
    spec fn slot_fits(self) -> bool {
        self.slot < CACHE_ENTRY_COUNT
    }
}

/// What a lookup in the rule cache gives: a handle for storing the rule on a
/// miss, or the outcome of executing the cached rule on a hit.
#[derive(Debug)]
pub enum CacheResult {
    Miss(CacheHandle),
    Hit(Result<Option<u64>, Error>),
}

/// A cache of unwind rules by address, with one entry per slot.
pub struct RuleCache<R> {
    entries: Vec<Option<CacheEntry<R>>>,
    stats: CacheStats,
}

impl<R> View for RuleCache<R> {
    type V = Seq<Option<CacheEntry<R>>>;

    closed spec fn view(&self) -> Seq<Option<CacheEntry<R>>> {
        self.entries@
    }
}

impl<R> RuleCache<R> {
    /// The lookup counters.
    pub closed spec fn spec_stats(self) -> CacheStats {
        self.stats
    }

    /// An empty cache.
    pub fn new() -> (c: Self)
        ensures
            c@ == Seq::new(CACHE_ENTRY_COUNT as nat, |i: int| None::<CacheEntry<R>>),
            c.spec_stats() == zero_stats(),
    {
        let mut entries: Vec<Option<CacheEntry<R>>> = Vec::new();
        let mut i: usize = 0;
        while i < CACHE_ENTRY_COUNT
            invariant
                i <= CACHE_ENTRY_COUNT,
                entries@ == Seq::new(i as nat, |j: int| None::<CacheEntry<R>>),
            decreases CACHE_ENTRY_COUNT - i,
        {
            entries.push(None);
            i = i + 1;
        }
        RuleCache { entries, stats: CacheStats::new() }
    }

    /// Stores `unwind_rule` in the slot of the handle, for the handle's
    /// address and modules generation.
    pub fn insert(&mut self, handle: CacheHandle, unwind_rule: R)
        requires
            old(self)@.len() == CACHE_ENTRY_COUNT,
        ensures
            handle.slot() < CACHE_ENTRY_COUNT,
            final(self)@ == stored(old(self)@, handle, unwind_rule),
            final(self).spec_stats() == old(self).spec_stats(),
    {
        proof {
            use_type_invariant(handle);
        }
        let entry = CacheEntry {
            address: handle.address,
            modules_generation: handle.modules_generation,
            unwind_rule,
        };
        self.entries.set(handle.slot as usize, Some(entry));
    }

    /// A snapshot of the lookup counters.
    pub fn stats(&self) -> (s: CacheStats)
        ensures
            s == self.spec_stats(),
    {
        self.stats
    }
}

impl RuleCache<UnwindRuleLoongArch64> {
    /// Looks up the rule for `address` in `modules_generation`. On a hit the
    /// cached rule is executed and its outcome returned; on a miss a handle
    /// for storing the rule is returned and the registers are untouched.
    /// Each lookup counts up exactly one of the counters.
    pub fn try_unwind<F>(
        &mut self,
        address: u64,
        modules_generation: u16,
        regs: &mut UnwindRegsLoongArch64,
        is_first_frame: bool,
        read_stack: &mut F,
    ) -> (res: CacheResult)
        where
            F: FnMut(u64) -> Result<u64, ()>,
        requires
            old(self)@.len() == CACHE_ENTRY_COUNT,
            forall|a: u64| call_requires(*old(read_stack), (a,)),
        ensures
            final(self)@ == old(self)@,
            final(self).spec_stats() == counted(
                old(self).spec_stats(),
                lookup_slot(old(self)@, address, modules_generation),
            ),
            match lookup_slot(old(self)@, address, modules_generation) {
                SlotLookup::Found(rule) => res matches CacheResult::Hit(r) && rule.executes_to(
                    is_first_frame,
                    old(regs)@,
                    *old(read_stack),
                    r,
                    final(regs)@,
                ),
                _ => {
                    &&& res matches CacheResult::Miss(h) && h.is_for(address, modules_generation)
                    &&& final(regs)@ == old(regs)@
                },
            },
    {
        let slot = (address % 509) as u16;
        let handle = CacheHandle { slot, address, modules_generation };
        match self.entries[slot as usize] {
            None => {
                self.stats.miss_empty_slot_count = self.stats.miss_empty_slot_count.saturating_add(
                    1,
                );
            },
            Some(entry) => {
                if entry.modules_generation != modules_generation {
                    self.stats.miss_wrong_modules_count =
                    self.stats.miss_wrong_modules_count.saturating_add(1);
                } else if entry.address != address {
                    self.stats.miss_wrong_address_count =
                    self.stats.miss_wrong_address_count.saturating_add(1);
                } else {
                    self.stats.hit_count = self.stats.hit_count.saturating_add(1);
                    return CacheResult::Hit(entry.unwind_rule.exec(is_first_frame, regs, read_stack));
                }
            },
        }
        CacheResult::Miss(handle)
    }
}

/// The unwinder's cache: the rules found so far, by address.
pub struct Cache<R, P: AllocationPolicy = MayAllocateDuringUnwind> {
    pub rule_cache: RuleCache<R>,
    _phantom: PhantomData<P>,
}

impl<R, P: AllocationPolicy> Cache<R, P> {
    /// The entries of the rule cache.
    pub closed spec fn cached(self) -> Seq<Option<CacheEntry<R>>> {
        self.rule_cache@
    }

    /// The lookup counters of the rule cache.
    pub closed spec fn spec_stats(self) -> CacheStats {
        self.rule_cache.spec_stats()
    }

    /// An empty cache.
    pub fn new() -> (c: Self)
        ensures
            c.cached() == Seq::new(CACHE_ENTRY_COUNT as nat, |i: int| None::<CacheEntry<R>>),
            c.spec_stats() == zero_stats(),
    {
        Cache { rule_cache: RuleCache::new(), _phantom: PhantomData }
    }
}

/// The unwinder cache type for the LoongArch64 unwinder.
pub struct CacheLoongArch64<P: AllocationPolicy = MayAllocateDuringUnwind>(
    pub Cache<UnwindRuleLoongArch64, P>,
);

impl CacheLoongArch64<MayAllocateDuringUnwind> {
    /// Create a new cache.
    pub fn new() -> (c: Self)
        ensures
            c.0.cached() == Seq::new(
                CACHE_ENTRY_COUNT as nat,
                |i: int| None::<CacheEntry<UnwindRuleLoongArch64>>,
            ),
            c.0.spec_stats() == zero_stats(),
    {
        Self(Cache::new())
    }
}

impl<P: AllocationPolicy> CacheLoongArch64<P> {
    /// Create a new cache.
    pub fn new_in() -> (c: Self)
        ensures
            c.0.cached() == Seq::new(
                CACHE_ENTRY_COUNT as nat,
                |i: int| None::<CacheEntry<UnwindRuleLoongArch64>>,
            ),
            c.0.spec_stats() == zero_stats(),
    {
        Self(Cache::new())
    }

    /// Returns a snapshot of the cache usage statistics.
    pub fn stats(&self) -> (s: CacheStats)
        ensures
            s == self.0.spec_stats(),
    {
        self.0.rule_cache.stats()
    }
}

impl<P: AllocationPolicy> Default for CacheLoongArch64<P> {
    fn default() -> (c: Self)
        ensures
            c.0.cached() == Seq::new(
                CACHE_ENTRY_COUNT as nat,
                |i: int| None::<CacheEntry<UnwindRuleLoongArch64>>,
            ),
            c.0.spec_stats() == zero_stats(),
    {
        Self::new_in()
    }
}

} // verus!
