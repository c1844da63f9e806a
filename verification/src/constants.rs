//! Every fixed number the kernel relies on, grouped by the device it belongs to.

pub mod font;
pub mod qemu;
pub mod serial;
pub mod vga;
