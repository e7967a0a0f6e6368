# shining_emulator

A Game Boy, Game Boy Color and Super Game Boy emulator core, written in Verus. Each
operation's behaviour is stated in its `requires` and `ensures` contract, and Verus proves
that the code meets it.

## Layout

- `src/`: the verified library.
  - `interpreter.rs`, `execution.rs`: the CPU instruction set.
  - `bus.rs`, `memory.rs`, `sram.rs`, `rom.rs`: the memory map, the cartridge controllers,
    the timer, DMA and the joypad register.
  - `tick.rs`: the machine cycle, the PPU modes, interrupts and the scheduler.
  - `video.rs`, `palettes.rs`, `gpu.rs`, `frame_buffer.rs`: line rendering and frame publishing.
  - `sgb.rs`: Super Game Boy command packets and colouring.
  - `audio_unit.rs`, `audio.rs`: the sound registers, as events for a synthesiser.
  - `save_state.rs`, `loader.rs`, `cheats.rs`, `runtime.rs`, `xbr_upscaler.rs`: save states,
    cartridge loading, cheat codes, speed controls and the pixel-art upscaler.
- `tests/`: tests that run the compiled library.
- `app/`: the unverified parts that stay outside the library:
  - file I/O;
  - JSON save states, through serde;
  - the floating-point audio mixer;
  - the real-time loop, which turns wall-clock time into clocks.

Laws that relate several operations stand in `src/` as public proof functions whose names
begin with `lemma_`.
