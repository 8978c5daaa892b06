use vstd::prelude::*;

use crate::cache::{
    counted, lookup_slot, lookup_total, slot_of, stored, CacheEntry, CacheHandle, CacheStats,
    SlotLookup, CACHE_ENTRY_COUNT,
};

verus! {

/// After a rule is stored with the handle of a missed lookup of `address` in
/// `modules_generation`, the next lookup of that address in that generation
/// finds that rule.
pub proof fn lemma_lookup_finds_stored_rule<R>(
    entries: Seq<Option<CacheEntry<R>>>,
    handle: CacheHandle,
    unwind_rule: R,
    address: u64,
    modules_generation: u16,
)
    requires
        entries.len() == CACHE_ENTRY_COUNT,
        handle.is_for(address, modules_generation),
    ensures
        lookup_slot(stored(entries, handle, unwind_rule), address, modules_generation)
            == SlotLookup::Found(unwind_rule),
{
}

/// Storing a rule changes only the lookups of addresses of the handle's
/// slot: any other address is looked up as before.
pub proof fn lemma_store_keeps_other_slots<R>(
    entries: Seq<Option<CacheEntry<R>>>,
    handle: CacheHandle,
    unwind_rule: R,
    address: u64,
    modules_generation: u16,
)
    requires
        entries.len() == CACHE_ENTRY_COUNT,
        handle.slot() < CACHE_ENTRY_COUNT,
        slot_of(address) != handle.slot(),
    ensures
        lookup_slot(stored(entries, handle, unwind_rule), address, modules_generation)
            == lookup_slot(entries, address, modules_generation),
{
}

/// An empty cache finds nothing.
pub proof fn lemma_empty_cache_misses<R>(address: u64, modules_generation: u16)
    ensures
        lookup_slot(
            Seq::new(CACHE_ENTRY_COUNT as nat, |i: int| None::<CacheEntry<R>>),
            address,
            modules_generation,
        ) == SlotLookup::<R>::EmptySlot,
{
}

/// Every lookup counts exactly one hit or miss, until a counter reaches
/// `u64::MAX`; the other counters are left as they were.
pub proof fn lemma_each_lookup_counts_once<R>(before: CacheStats, lookup: SlotLookup<R>)
    requires
        before.hit_count < u64::MAX,
        before.miss_empty_slot_count < u64::MAX,
        before.miss_wrong_modules_count < u64::MAX,
        before.miss_wrong_address_count < u64::MAX,
    ensures
        lookup_total(counted(before, lookup)) == lookup_total(before) + 1,
        (lookup is Found) <==> counted(before, lookup).hit_count == before.hit_count + 1,
{
}

/// A lookup finds a rule exactly when the slot `address % 509` holds an
/// entry for that very address and modules generation; it then finds that
/// entry's rule. An empty slot, another generation or another address in
/// the slot each miss, in that order of precedence.
pub proof fn lemma_lookup_meaning<R>(
    entries: Seq<Option<CacheEntry<R>>>,
    address: u64,
    modules_generation: u16,
)
    requires
        entries.len() == 509,
    ensures
        ({
            let slot = (address % 509) as int;
            let found = lookup_slot(entries, address, modules_generation);
            &&& entries[slot] is None ==> found == SlotLookup::<R>::EmptySlot
            &&& entries[slot] matches Some(e) ==> found == (if e.modules_generation
                != modules_generation {
                SlotLookup::<R>::WrongModules
            } else if e.address != address {
                SlotLookup::<R>::WrongAddress
            } else {
                SlotLookup::<R>::Found(e.unwind_rule)
            })
        }),
{
}

/// Each kind of lookup counts up its own counter by one (held at
/// `u64::MAX`) and leaves the other three.
pub proof fn lemma_lookup_counts_its_kind<R>(before: CacheStats, lookup: SlotLookup<R>)
    ensures
        ({
            let after = counted(before, lookup);
            let up = |n: u64|
                if n < 0xffff_ffff_ffff_ffff {
                    n + 1
                } else {
                    n as int
                };
            &&& after.hit_count == (if lookup is Found {
                up(before.hit_count)
            } else {
                before.hit_count as int
            })
            &&& after.miss_empty_slot_count == (if lookup is EmptySlot {
                up(before.miss_empty_slot_count)
            } else {
                before.miss_empty_slot_count as int
            })
            &&& after.miss_wrong_modules_count == (if lookup is WrongModules {
                up(before.miss_wrong_modules_count)
            } else {
                before.miss_wrong_modules_count as int
            })
            &&& after.miss_wrong_address_count == (if lookup is WrongAddress {
                up(before.miss_wrong_address_count)
            } else {
                before.miss_wrong_address_count as int
            })
        }),
{
}

/// Storing with a handle fills the handle's slot with an entry for the
/// handle's address and generation, and changes no other slot.
pub proof fn lemma_store_fills_one_slot<R>(
    entries: Seq<Option<CacheEntry<R>>>,
    handle: CacheHandle,
    unwind_rule: R,
    address: u64,
    modules_generation: u16,
    i: int,
)
    requires
        entries.len() == 509,
        handle.is_for(address, modules_generation),
        0 <= i < 509,
    ensures
        stored(entries, handle, unwind_rule).len() == 509,
        stored(entries, handle, unwind_rule)[i] == (if i == (address % 509) as int {
            Some(CacheEntry { address, modules_generation, unwind_rule })
        } else {
            entries[i]
        }),
{
}

} // verus!
