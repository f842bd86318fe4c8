# brig

The verified core of a dynamic binary translator that emits x86-64 code,
and of the hypervisor-side models it runs with. Everything under `src/` is
checked by Verus; `app/` holds the host-side glue that Verus does not see.

## Layout of `src/`

- Translation IR and its builders: `ir` (nodes and types), `fold`
  (binary operations, folding constants), `unary` (one-operand operations,
  casts, shifts, selections), `extract` (bit-field extraction, insertion and
  replication), `checked` (builders that refuse undefined nodes), `dag`.
- x86 instructions: `width`, `registers`, `encoder` (operands, opcodes, the
  operands and register uses of each instruction), `text` (instructions as
  assembly text).
- Code emission: `emitter` (selecting instructions for nodes), `statements`
  (register writes, memory accesses, calls, branches, leaving the
  translation), `flags`, `context` (blocks of the translation).
- Compilation: `layout` (ordering blocks, dropping fall-through jumps),
  `regset` and `regalloc` (register allocation), `naive` (live ranges),
  `lowering`, `asm_forms`, `encode` and `assembler` (handing instructions to
  the `iced-x86` assembler through trusted wrappers).
- Hypervisor models: `vmx` (I/O and MSR bitmaps), `vmcs`, `vmcs_setup` and
  `vmcs_report` (VMCS state, the fields written at setup and the guest-state
  report), `ept` (extended page tables), `irq`, `pl011` (the UART),
  `virtio` (virtqueues), `sysreg` (system-register handlers), `machine`,
  `config`, `bits`, `bitset`.

`tests/` exercises the library from outside; `app/` adds the error and
configuration types that carry outside derives, and device glue that checks
each precondition before calling the library.
