//! Exception and interrupt dispatch for a small x86-64 kernel.
//!
//! The hardware-facing parts (port I/O, loading the tables into the CPU,
//! the text buffer in memory) live outside this library; what is decided
//! here is verified: the segment descriptor table and its selectors, which
//! handler each vector is bound to and on which stack, how each fault ends
//! the run, which interrupt line is acknowledged, how key presses become
//! output, and how the console grid scrolls and wraps.

pub mod exceptions;
pub mod gdt;
pub mod interrupts;
pub mod keyboard;
pub mod qemu;
pub mod vga_buffer;
