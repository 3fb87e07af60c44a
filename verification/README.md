# opus_wasm_alloc

The allocator that Opus C code links against on WebAssembly (`opus_alloc`,
`opus_free`, `opus_realloc`, `opus_alloc_scratch`, and `malloc`, `free`,
`calloc`, `realloc`), split in two:

- `src/` is the verified library. `layout` holds block layouts and the rule a
  size and alignment must meet; `table` holds the record of live blocks and the
  step functions that decide each request (`plan_alloc`, `record_alloc`,
  `release`, `plan_realloc`, `record_move`, `plan_calloc`, `init_alloc_table`);
  `bytes` zeroes and copies block contents; `laws` states what holds across
  operations (a release undoes an allocation, a second release finds nothing,
  failures leave the record alone, the null address is never recorded).
- `app/` holds the C entry points: it locks the global record, calls Rust's
  global allocator, turns raw blocks into slices for the library to fill, and
  provides the `libm`-backed math functions, which are floating point.
