//! A cycle-driven model of the DEC VT420 terminal around its 8051 core.
//!
//! - `vsync`: raster counters and the composite-sync level the CPU samples.
//! - `video`: timing presets, the mapper register file, the 0x7FF6 read, and
//!   decoding of the row directory, character cells and glyphs in VRAM.
//! - `memory`: the xdata bus (SRAM, VRAM with its swizzled window, mapper,
//!   DUART, peripheral window), the banked ROM and the port devices.
//! - `nvr`: the 3-wire serial NVRAM.
//! - `duart`: the dual UART and its host byte channels.
//! - `lk201`: the keyboard's command parser, answers and key codes.
//! - `machine`: the devices' part of a machine step, NVRAM images and screen
//!   text.
//! - `comm`: how a serial channel is attached on the host side.
//! - `channel`: std's channels and shared flag, as the devices use them.
pub mod vsync;
pub mod video;
pub mod nvr;
pub mod channel;
pub mod duart;
pub mod lk201;
pub mod memory;
pub mod machine;
pub mod comm;
