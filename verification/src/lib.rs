pub mod bits;
pub mod constants;
pub mod rom;
pub mod sram;
pub mod cpu;
pub mod dma;
pub mod gpu;
pub mod input;
pub mod palettes;
pub mod runtime;
pub mod memory;
pub mod sgb;
pub mod video;
pub mod xbr_upscaler;
pub mod save_state;
pub mod bus;
pub mod audio;
pub mod execution;
pub mod loader;
pub mod cheats;
pub mod audio_unit;
pub mod machine;
pub mod frame_buffer;
pub mod interpreter;
pub mod tick;
