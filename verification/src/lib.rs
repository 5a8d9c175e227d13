//! Bring-up layer of a small freestanding kernel: the verified logic of its
//! text display.
//!
//! The surrounding program supplies the frame buffer and decides when to
//! print; what ends up on the display is decided here.

pub mod vga_buffer;
