//! Ownership discipline for a display-server connection obtained from a
//! foreign windowing library.
//!
//! Nothing in this crate crosses the foreign boundary. Every operation
//! decides which foreign routine is to be entered and with which
//! arguments, and hands that decision back as a [`cdef::ForeignCall`]; the
//! caller enters the routine and, for an open, reports the address that came
//! back.

pub mod c_string;
pub mod cdef;
pub mod display;
pub mod error;
pub mod ownership;

pub use display::{x_close_display, x_default_screen, x_open_display, x_open_display_reply};
pub use error::{ErrorKind, XlibError};
pub use ownership::{DoNotFree, XBox};
