# Cathode-8

An NES emulator whose emulation core is written in Verus and verified: the
6502 CPU, the picture processing unit, the audio processing unit's channels
and frame sequencer, the iNES cartridge parser and eighteen memory mappers
plus a generic board, together with the logic of the command-line tools.

## Layout

- `src/nes/` — the console. `cpu.rs` holds the instruction set, each
  instruction group described by an outcome predicate that its executor
  proves; `cpu_laws.rs`, `ppu_laws.rs` and `apu_laws.rs` state and prove
  properties that span operations (ADC/SBC arithmetic, ROL/ROR and JSR/RTS
  round trips, RAM mirroring, PPU register and VRAM round trips, vblank
  timing, the frame IRQ, controller read order, ...). `mapper/` has one file
  per board, each with its own laws.
- `src/controls.rs` — the front end's controls: which held keys press which
  controller buttons, and what the reset and pause shortcuts decide.
- `src/tools/` — option parsing, the stress runner's input generator, the
  AccuracyCoin result tally and frame statistics, the XML reader the suites
  are read with, and the ROM-suite reader, test selection, hashes and
  result matching.
- `app/` — the desktop window (eframe), sound output (cpal) with the
  floating-point mixer and filters, ROM file loading, and the tools' I/O.
  One program serves as emulator and tools, chosen by the name it runs under.
- `tests/` — runtime tests of the library.

## Controls

D-pad WASD or arrows, A Space or Z, B X, Start Enter, Select Shift,
pause P, reset R, open Ctrl+O; the Zapper aims with the mouse and fires with
the left button.
