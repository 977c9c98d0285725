//! A model of the window feature of a display controller.
//!
//! A window is a mask that lets chosen layers show in a part of the screen.
//! The display has four: two that cover a rectangle each, one for what lies
//! outside all others, and one that the objects shape. Their settings are
//! kept here and reach the registers of the display only when they are
//! committed.
//!
//! - [`bits`]: single bits of a byte and fields of a register.
//! - [`registers`]: the registers, by address, held in memory.
//! - [`background`]: the identifier of a background layer.
//! - [`flags`]: the flags of a window and the byte that holds them.
//! - [`geometry`]: rectangles, and how one is brought onto the screen.
//! - [`window`]: the windows and their commit.
//! - [`order`]: the steps of a commit may be made in any order.

pub mod background;
pub mod bits;
pub mod flags;
pub mod geometry;
pub mod order;
pub mod registers;
pub mod window;
