# framehop (LoongArch64 unwinding, verified with Verus)

Stack unwinding rules for LoongArch64, with their contracts proved by Verus.

Layout of `src/`:

- `unwindregs.rs`: the `ra`, `sp`, `fp` register set and its view.
- `unwind_rule.rs`: the unwind rules and `exec`, specified by
  `exec_outcome` over the values that the stack reads give.
- `dwarf.rs`: DWARF call frame rules as plain values, their translation into
  unwind rules, and one DWARF unwind step (`DwarfUnwinding`).
- `cache.rs`: the rule cache with its lookup counters.
- `macho.rs`, `instruction_analysis.rs`: compact unwind info and prologue /
  epilogue detection, which LoongArch64 does not support.
- `unwind_laws.rs`, `dwarf_laws.rs`, `cache_laws.rs`: properties that span
  the operations, stated and proved as proof functions.

`app/` converts gimli's parsed call frame information into the library's
types. `tests/` runs the library on concrete stacks and rows.
