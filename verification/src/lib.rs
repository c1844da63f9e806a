//! Early boot text output for a bare-metal kernel.
//!
//! A bootloader hands the kernel a linear framebuffer. This crate turns byte
//! streams into pixels in it: a bitmap [`font`], a [`pixel`] encoder for the
//! layout the bootloader names, the [`geometry`] of pixels in memory, a
//! bounds-checked [`surface`] over the raw region, and the cursor-and-grid
//! state machine of a text [`console`]. What drawing and writing mean is
//! said once, as mathematics, in [`raster`] and [`text`]; [`laws`] holds
//! what follows from it.
//!
//! The collaborators around the console are here as the decisions they
//! take: the console behind its lock ([`shared`]), the [`serial`] line, the
//! [`logging`] facade, the [`boot`] sequence, the emulator's exit codes
//! ([`qemu`]) and the host [`launcher`]. Port I/O, statics and the entry
//! point are left to the kernel binary.

pub mod boot;
pub mod console;
pub mod constants;
pub mod error;
pub mod font;
pub mod format;
pub mod geometry;
pub mod launcher;
pub mod laws;
pub mod logging;
pub mod pixel;
pub mod qemu;
pub mod raster;
pub mod serial;
pub mod shared;
pub mod surface;
pub mod text;
