# duo_firmware

Register-level logic of the firmware of the small RISC-V core of the Milk-V Duo 256,
with machine-checked contracts and proofs.

- `src/` is the library. Each device operation (PLIC, CLINT timer, GPIO LED, pin
  multiplexer, the two mailbox drivers, machine-mode setup) returns a plain description
  of the register accesses it makes (`mmio::RegAccess`, `mmio::ByteAccess`,
  `mmio::BitTest`, `csr::CsrOp`); the contracts state exactly which registers are
  touched with which values, and proof functions state how the operations relate
  (enabling a source is seen by `is_enabled`, a stored mailbox command is fetched,
  the timer compare halves recombine to the deadline, and so on). The mailbox command
  queue, the handler tables and the trap classification are verified data structures
  and decisions.
- `app/` is the program around it: it owns the device singletons, performs the
  register accesses with `tock-registers` and volatile pointer operations, runs the
  busy-wait and interrupt loops, and prints.
- `tests/` runs the library on concrete values.
