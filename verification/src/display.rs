//! The life of a display connection: opened, queried any number of times,
//! closed once.

use crate::c_string::{has_nul, is_first_nul, nul_byte_iff_nul_char, terminated, to_c_string};
use crate::cdef::{Display, ForeignCall, ForeignCallView};
use crate::error::{ErrorKind, XlibError};
use crate::ownership::DoNotFree;
use vstd::prelude::*;
use vstd::string::StringSliceAdditionalSpecFns;

verus! {

/// Prepares the opening of a connection to the display server.
///
/// Without a name the foreign open routine is to be entered with a null
/// pointer. With a name it is to be entered with the name's bytes in
/// zero-terminated form, unless the name holds a zero byte, which is to say
/// the character of code zero: such a name is refused with an error of kind
/// `InvalidArgumentValue` that carries the failed conversion, and no call is
/// handed back.
///
/// The address that the call returns goes to [`x_open_display_reply`].
pub fn x_open_display(display_name: Option<&str>) -> (result: Result<ForeignCall, XlibError>)
    ensures
        match display_name {
            None => result matches Ok(call) && call@ == (ForeignCallView::XOpenDisplay {
                name: None,
            }),
            Some(name) => if has_nul(name.spec_bytes()) {
                &&& result matches Err(error)
                &&& error@.kind == ErrorKind::InvalidArgumentValue
                &&& error@.message == "Failed to convert display_name to CString."@
                &&& error@.side matches Some(side)
                &&& side.bytes == name.spec_bytes()
                &&& is_first_nul(side.bytes, side.position)
            } else {
                result matches Ok(call) && call@ == (ForeignCallView::XOpenDisplay {
                    name: Some(terminated(name.spec_bytes())),
                })
            },
        },
        result is Err <==> (display_name matches Some(name) && name@.contains('\0')),
{
    match display_name {
        None => Ok(ForeignCall::XOpenDisplay { name: None }),
        Some(name) => {
            proof {
                nul_byte_iff_nul_char(name@);
            }
            match to_c_string(name.as_bytes()) {
                Err(side) => Err(XlibError::invalid_display_name(side)),
                Ok(buffer) => Ok(ForeignCall::XOpenDisplay { name: Some(buffer) }),
            }
        },
    }
}

/// Takes the address that the foreign open routine returned. A null address
/// means that no connection was obtained, which is no error; any other is
/// wrapped as a connection that the foreign library owns.
pub fn x_open_display_reply(address: usize) -> (display: Option<DoNotFree<Display>>)
    ensures
        display is None <==> address == 0,
        display matches Some(connection) ==> connection.address() == address,
{
    DoNotFree::from_raw(address)
}

/// Ends the life of a connection. The handle is used up; the call to make
/// is a close of its address, which is not null, and never a release.
pub fn x_close_display(display: DoNotFree<Display>) -> (call: ForeignCall)
    ensures
        call@ == (ForeignCallView::XCloseDisplay { display: display.address() }),
        display.address() != 0,
        !(call@ is XFree),
{
    ForeignCall::XCloseDisplay { display: display.address() }
}

/// Asks for the default screen of a connection. The handle stays as it
/// was; the call to make is a query on its address, which is not null, and
/// never a release.
pub fn x_default_screen(display: &mut DoNotFree<Display>) -> (call: ForeignCall)
    ensures
        call@ == (ForeignCallView::XDefaultScreen { display: old(display).address() }),
        old(display).address() != 0,
        *final(display) == *old(display),
        !(call@ is XFree),
{
    ForeignCall::XDefaultScreen { display: display.address() }
}

} // verus!
