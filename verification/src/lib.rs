//! Interrupt dispatch core of a small bare-metal kernel, with the startup
//! animation that the kernel plays once interrupts are live.
//!
//! The library touches no hardware. Whatever has an effect on the machine
//! (a port read or write, a line on the display, the return from a handler)
//! is handed out as a value that says what to do; performing it is left to
//! the kernel around the library.
//!
//! - `vectors`: the devices and their vectors.
//! - `idt`: the vector table.
//! - `pic`: the driver of the two chained interrupt controllers.
//! - `scancode`: from keyboard scancodes to characters.
//! - `handlers`: the handlers of the exceptions and of the devices.
//! - `startup`: the order in which the interrupt core is brought up.
//! - `color`, `animation`: the startup animation.

pub mod animation;
pub mod color;
pub mod handlers;
pub mod idt;
pub mod pic;
pub mod scancode;
pub mod startup;
pub mod vectors;

pub use animation::animate_logo;
pub use color::Color;
pub use startup::init_idt;
pub use vectors::InterruptIndex;
