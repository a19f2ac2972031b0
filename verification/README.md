# slopgb_core

A dot-accurate Game Boy / Game Boy Color picture processing unit, written in
Verus: every function carries a contract and is proved against it.

- `src/ppu/` — the PPU: register reads and writes (`regs`, `write`), the
  per-dot engine (`engine`), access blocking, the LY=LYC comparator (`lyc`),
  the STAT interrupt machinery (`stat`), the pixel pipeline (`render`,
  `pipeline`, `sprite`, `window`), the SGB link (`sgb_link`) and the
  cross-call properties (`laws`).
- `src/sgb/` — the Super Game Boy presentation layer: command packets,
  VRAM transfers, the border and its fade, and its save-state form
  (`save`, with the decoding argument in `round_trip`).
- `src/oam_bug.rs` — the DMG OAM corruption patterns.
- `src/state.rs` — the little-endian save-state byte stream.
- `tests/` — scenario tests on concrete values.

`Ppu::tick` advances one dot and returns the interrupt-flag bits it raised;
`Ppu::read` / `Ppu::write` are the CPU's view of VRAM, OAM and FF40-FF6C.

Scope: `Ppu::tick` advances the PPU one whole dot; `Ppu::tick_half`
clocks it in half-dots, running the write strobe on the first half of each
dot and the whole dot on the second. The STAT interrupt engine is
dot-clocked; a rising-edge engine re-evaluated on the odd half-dot is not
part of this library. The STOP speed-switch bookkeeping (the double-speed
alignment phase and its pause correction, the LCD timeline shift and the
HBlank-DMA window mapped back through it, the post-switch anchors) is kept
on the PPU.

How the dot's work composes is stated per call: `Ppu::tick` ensures a
`tick_path` through the write strobe, the copy ageing, the deferred FF45
interrupt, the clock step, the dot's work (`step_dot_path`: line-start
events, OAM scan or pixel pipeline, mode-0 flip, LY quirks, VBlank) and
the STAT engine, each step given by its own relation.
