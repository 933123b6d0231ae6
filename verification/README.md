# rustc_codegen_tpde

The core of a code generation backend for rustc that builds modules for the
TPDE compiler back end: functions with typed slots, basic blocks and
instructions, constants, and globals whose initializers are split into
initialised, uninitialised and relocated chunks.

`src/` is the library, verified with Verus:

- `ffi.rs`, `ir.rs`: the module records, their mathematical views, the
  encoding of slots as 32-bit operands, and the operations that grow a
  module;
- `types.rs`: layouts and calling conventions, as plain values, turned into
  backend types and function signatures;
- `builder.rs`: emitting arithmetic, comparisons, casts, memory accesses,
  calls and control flow into a block;
- `context.rs`: the state of one codegen unit (declared functions, globals,
  signatures, fresh names);
- `consts.rs`, `common.rs`: constants, constant allocations and pointers
  into constant memory;
- `allocator.rs`: the allocator shim;
- `symbols.rs`, `dump.rs`: generated names and debugging text;
- `backend.rs`: what the backend answers about itself;
- `laws.rs`: properties that relate several operations.

`app/` holds what stays next to the compiler: conversions from the
compiler's own types, the text of floating-point constants, and a listing
of MIR.
