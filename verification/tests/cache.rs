use framehop::{
    CacheLoongArch64, CacheResult, CacheStats, MustNotAllocateDuringUnwind, RuleCache,
    UnwindRegsLoongArch64, UnwindRuleLoongArch64,
};

fn zero() -> CacheStats {
    CacheStats::new()
}

#[test]
fn new_caches_have_no_lookups() {
    assert_eq!(CacheLoongArch64::new().stats(), zero());
    assert_eq!(CacheLoongArch64::<MustNotAllocateDuringUnwind>::new_in().stats(), zero());
    assert_eq!(CacheLoongArch64::<MustNotAllocateDuringUnwind>::default().stats(), zero());
    assert_eq!(zero().hit_count, 0);
}

#[test]
fn lookup_after_insert_hits() {
    let mut cache: RuleCache<UnwindRuleLoongArch64> = RuleCache::new();
    let mut regs = UnwindRegsLoongArch64::new(0x1000, 0x10, 0x30);
    let stack = [0u64, 0, 0, 0, 0x50, 0x2000, 0, 0];
    let mut read_stack = |addr: u64| Ok(stack[(addr / 8) as usize]);

    let handle = match cache.try_unwind(0x1234, 1, &mut regs, false, &mut read_stack) {
        CacheResult::Miss(h) => h,
        CacheResult::Hit(_) => panic!("empty cache hit"),
    };
    assert_eq!(regs, UnwindRegsLoongArch64::new(0x1000, 0x10, 0x30));
    cache.insert(handle, UnwindRuleLoongArch64::UseFramePointer);

    match cache.try_unwind(0x1234, 1, &mut regs, false, &mut read_stack) {
        CacheResult::Hit(res) => assert_eq!(res, Ok(Some(0x2000))),
        CacheResult::Miss(_) => panic!("stored rule missed"),
    }
    assert_eq!(regs, UnwindRegsLoongArch64::new(0x2000, 0x30, 0x50));

    // Another generation misses.
    assert!(matches!(
        cache.try_unwind(0x1234, 2, &mut regs, false, &mut read_stack),
        CacheResult::Miss(_)
    ));
    // Another address of the same slot misses.
    assert!(matches!(
        cache.try_unwind(0x1234 + 509, 1, &mut regs, false, &mut read_stack),
        CacheResult::Miss(_)
    ));
    let stats = cache.stats();
    assert_eq!(stats.hit_count, 1);
    assert_eq!(stats.miss_empty_slot_count, 1);
    assert_eq!(stats.miss_wrong_modules_count, 1);
    assert_eq!(stats.miss_wrong_address_count, 1);
}
