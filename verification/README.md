# gb_emulator

A Game Boy (DMG) emulator core verified with Verus: the Sharp LR35902
instruction set (decoding and execution), the flat 64 KiB bus with the boot
ROM overlay and the side effects of the I/O registers, interrupts, the
timer, OAM DMA, the joypad, the cartridge memory regions and bank
controllers, and the picture processing unit's mode state machine and
scanline renderer.

Layout:

- `src/` is the verified library. Every operation of the CPU is described
  by a specification function over `CpuView`, the mathematical model of the
  CPU and its memory, and the executable code is proved to implement it.
  `src/cpu/laws.rs`, `src/memory.rs`, `src/cpu/dma.rs` and
  `src/rendering/line_rendering.rs` hold the properties that tie operations
  together (a pop gives back a push, RET returns from CALL, RETI from an
  interrupt, a read gives back a write, a DMA transfer fills OAM from a page,
  a step moves PC on and applies its condition codes, DAA after a BCD
  addition gives the decimal sum, ...). `CPU::doctor_log_line` gives the
  state line that Gameboy Doctor compares.
- `tests/` runs the library on concrete values.
- `app/` is the program around it: the window, the file dialog, the
  keyboard, timing and drawing, built with macroquad.

The emulator looks for the DMG boot ROM at `bin/DMG_ROM.bin` next to where it
is started; without it the boot ROM area reads as zeros (NOPs), so execution
runs on to the cartridge entry point at 0x0100 with the registers as they were
at power-on.
