# bitwise

Bitwise primitives for x86_64 kernel code: address alignment and frame
arithmetic, bit and bit-field manipulation, flag registers, typed physical and
virtual addresses, page-table entries, GDT/IDT/TSS descriptors, a fixed-size
bitmap for frame allocation, cache-line and DMA arithmetic, and byte-order
conversion.

- `src/` is the library. Every function in it carries a `requires`/`ensures`
  contract proved by Verus, and the public `lemma_*` proof functions state the
  laws that relate several operations (round trips, what an update keeps).
- `app/` holds what needs inline assembly or raw pointers: `CPUID`,
  `RDMSR`/`WRMSR`, `IN`/`OUT`, volatile MMIO accesses and single-instruction
  wrappers. The values they compute around the hardware access come from the
  library.
- `tests/` exercises the library on concrete values.
