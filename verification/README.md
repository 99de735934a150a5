# holani

A verified core of an Atari Lynx emulator, in Verus.

- `mikey::cpu`: the 65C02, one bus cycle at a time. `steps` gives what every
  step of every opcode does; `tick_spec` gives a whole cycle, including the
  interrupt pipelines, the opcode latch and RDY stalls. Lemmas there run a
  core against a 64 KiB memory (`wired_run`) and state whole instructions
  (LDA, JMP indirect, JSR/RTS, PHA/PLA, BNE, BRK, reset).
- `mikey`: timers and audio channels, video DMA and pixel output, the UART,
  interrupts and the bus hand-over to the CPU.
- `suzy`: the math unit and the sprite engine (SCB loading, line decoding,
  pixel and collision writes).
- `ram`, `vectors`, `memory_map`: memory with its page-mode timing, the boot
  vectors, and which device serves each address under MAPCTL.
- `cartridge`: LNX and BS93 images, the address shifter and counter, and the
  93Cxx serial EEPROM.

Functions carry `requires`/`ensures` contracts over views of the types; laws
relating several calls are public proof functions beside them. `app/` holds
what works in floating point (the audio mix and the refresh rate) and the
conversion of a cartridge loading error into an I/O error.

The library does not model a boot ROM, so it has no whole-console type;
cartridges are read from LNX and BS93 images only.
