# gd32e2_hal

A hardware abstraction layer for the GD32E230K8 (Cortex-M23, QFN32), written
in Verus. Every driver operation is specified by what it does to the
peripheral's registers, and proved to do exactly that.

## Layout

- `src/periph.rs` — the register files: each peripheral's registers as plain
  32-bit words, at their reset values. Flags the silicon raises on its own
  (`TBE`, a received frame) stand there as the code driving the chip last
  found them; received frames are a queue that reads take from in order, each
  with the error flags it arrives with, and the flash controller's operations
  end with the flags listed for them in turn. Where the order of accesses matters,
  the file keeps it: the flash unlock keys, a port's `LOCK` (writes and
  reads), the control registers of the SPIs and USARTs with their resets, and
  every write to the reset and clock unit.
- `src/bits.rs` — bit and field access on register words, with the lemmas the
  drivers' proofs use.
- `src/rcu.rs`, `src/fmc.rs`, `src/gpio.rs`, `src/syscfg.rs`, `src/exti.rs`,
  `src/crc.rs`, `src/cmp.rs`, `src/spi.rs`, `src/usart.rs` — the drivers, each
  with its register-level contracts and the laws that hold across its
  operations (`law_*` proof functions).
- `src/time.rs` — frequencies and bit rates.
- `tests/` — scenarios on concrete register files.
- `app/` — the `embedded-hal`, `embedded-hal-nb` and `embedded-io` traits on
  the drivers, the error types with `Display`, and the busy-waits on hardware
  flags, which the library leaves to the code that drives the chip.
