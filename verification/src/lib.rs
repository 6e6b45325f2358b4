//! A register-level model of the IBM VGA display adapter and the Bochs VBE
//! DISPI linear framebuffer, together with the driver logic that programs
//! them: mode switching over five indexed register files, planar memory
//! writes in all four write modes, text and graphics writers, Bresenham
//! line drawing, and a PCI configuration-space scan.
//!
//! The hardware itself is reached through port I/O and volatile stores,
//! which a freestanding kernel supplies; this crate holds the machine
//! state as plain data so that every register sequence and every
//! framebuffer write is specified and proved.

pub mod colors;
pub mod configurations;
pub mod devices;
pub mod drawing;
pub mod fonts;
pub mod registers;
pub mod vga;
pub mod writers;
