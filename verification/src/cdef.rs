//! The foreign windowing library as this crate sees it: one opaque type and
//! four routines, each written down as data.

use vstd::prelude::*;

verus! {

/// The connection structure that the foreign library keeps for one display.
/// It is never built or read on this side of the boundary, and serves only
/// as the pointee of a [`crate::DoNotFree`].
pub struct Display {
    private: [u8; 0],
}

/// One entry into the foreign library: which routine, and with which
/// arguments. An address is the pointer's value; zero is the null pointer.
#[derive(Debug, PartialEq, Eq)]
pub enum ForeignCall {
    /// Open a connection. `name` is the display name in zero-terminated
    /// form, or `None` for a null pointer, on which the foreign library
    /// chooses the display by itself.
    XOpenDisplay { name: Option<Vec<u8>> },
    /// Close the connection at `display`.
    XCloseDisplay { display: usize },
    /// Give the memory at `data` back to the foreign allocator.
    XFree { data: usize },
    /// Ask for the index of the default screen of the connection at
    /// `display`.
    XDefaultScreen { display: usize },
}

/// A [`ForeignCall`] with the name as a sequence of bytes.
pub enum ForeignCallView {
    XOpenDisplay { name: Option<Seq<u8>> },
    XCloseDisplay { display: usize },
    XFree { data: usize },
    XDefaultScreen { display: usize },
}

impl View for ForeignCall {
    type V = ForeignCallView;

    open spec fn view(&self) -> ForeignCallView {
        match self {
            ForeignCall::XOpenDisplay { name } => ForeignCallView::XOpenDisplay {
                name: match name {
                    Some(buffer) => Some(buffer@),
                    None => None,
                },
            },
            ForeignCall::XCloseDisplay { display } => ForeignCallView::XCloseDisplay {
                display: *display,
            },
            ForeignCall::XFree { data } => ForeignCallView::XFree { data: *data },
            ForeignCall::XDefaultScreen { display } => ForeignCallView::XDefaultScreen {
                display: *display,
            },
        }
    }
}

} // verus!
