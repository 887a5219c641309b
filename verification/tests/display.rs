use safe_xlib::cdef::{Display, ForeignCall};
use safe_xlib::{
    x_close_display, x_default_screen, x_open_display, x_open_display_reply, DoNotFree, ErrorKind,
    XBox, XlibError,
};

/// Stands in for the foreign library: notes every call and answers with
/// what the test chose.
struct Recorder {
    calls: Vec<ForeignCall>,
    opened: usize,
    status: i32,
    screen: i32,
}

impl Recorder {
    fn answering(opened: usize) -> Recorder {
        Recorder { calls: Vec::new(), opened, status: 0, screen: 0 }
    }

    fn enter(&mut self, call: ForeignCall) -> isize {
        let reply = match &call {
            ForeignCall::XOpenDisplay { .. } => self.opened as isize,
            ForeignCall::XCloseDisplay { .. } => self.status as isize,
            ForeignCall::XFree { .. } => self.status as isize,
            ForeignCall::XDefaultScreen { .. } => self.screen as isize,
        };
        self.calls.push(call);
        reply
    }

    fn releases(&self) -> usize {
        self.calls.iter().filter(|call| matches!(call, ForeignCall::XFree { .. })).count()
    }
}

fn open(
    xlib: &mut Recorder,
    display_name: Option<&str>,
) -> Result<Option<DoNotFree<Display>>, XlibError> {
    let call = x_open_display(display_name)?;
    let address = xlib.enter(call) as usize;
    Ok(x_open_display_reply(address))
}

fn close(xlib: &mut Recorder, display: DoNotFree<Display>) -> i32 {
    xlib.enter(x_close_display(display)) as i32
}

fn default_screen(xlib: &mut Recorder, display: &mut DoNotFree<Display>) -> i32 {
    xlib.enter(x_default_screen(display)) as i32
}

#[test]
fn open_without_a_name_enters_with_a_null_name() {
    let mut xlib = Recorder::answering(0x7f00_1000);
    let display = open(&mut xlib, None).unwrap();
    assert!(display.is_some());
    assert_eq!(xlib.calls, vec![ForeignCall::XOpenDisplay { name: None }]);
}

#[test]
fn open_with_a_name_enters_with_the_terminated_name() {
    let mut xlib = Recorder::answering(0x7f00_1000);
    let display = open(&mut xlib, Some(":0.0")).unwrap().unwrap();
    assert_eq!(display.address(), 0x7f00_1000);
    assert_eq!(xlib.calls, vec![ForeignCall::XOpenDisplay { name: Some(b":0.0\0".to_vec()) }]);
}

#[test]
fn open_marshals_the_utf8_bytes_of_the_name() {
    assert_eq!(
        x_open_display(Some("h\u{e9}llo")).unwrap(),
        ForeignCall::XOpenDisplay { name: Some(vec![0x68, 0xC3, 0xA9, 0x6C, 0x6C, 0x6F, 0x00]) }
    );
}

#[test]
fn open_with_an_empty_name_gives_a_handle_that_closes_with_the_foreign_status() {
    let mut xlib = Recorder::answering(0x5000);
    xlib.status = 7;
    let display = open(&mut xlib, Some("")).unwrap().unwrap();
    assert_eq!(display.address(), 0x5000);
    assert_eq!(close(&mut xlib, display), 7);
    assert_eq!(
        xlib.calls,
        vec![
            ForeignCall::XOpenDisplay { name: Some(vec![0]) },
            ForeignCall::XCloseDisplay { display: 0x5000 },
        ]
    );
}

#[test]
fn open_with_a_zero_byte_in_the_name_is_refused_before_any_call() {
    let mut xlib = Recorder::answering(0x5000);
    let error = match open(&mut xlib, Some("bad\0name")) {
        Err(error) => error,
        Ok(_) => panic!("a name with a zero byte was let through"),
    };
    assert_eq!(error.kind(), ErrorKind::InvalidArgumentValue);
    assert!(xlib.calls.is_empty());
}

#[test]
fn refusal_carries_message_kind_and_failed_conversion() {
    let error = x_open_display(Some("bad\0name")).unwrap_err();
    assert_eq!(error.message(), "Failed to convert display_name to CString.");
    assert_eq!(error.kind(), ErrorKind::InvalidArgumentValue);
    let side = error.side().unwrap();
    assert_eq!(side.nul_position(), 3);
    assert_eq!(side.as_bytes(), b"bad\0name");
    assert_eq!(error.to_string(), "XlibError");
}

#[test]
fn refusal_names_the_first_zero_byte() {
    let error = x_open_display(Some("\0a\0")).unwrap_err();
    assert_eq!(error.side().unwrap().nul_position(), 0);
    let error = x_open_display(Some("\u{e9}\0")).unwrap_err();
    assert_eq!(error.side().unwrap().nul_position(), 2);
    assert_eq!(error.side().unwrap().as_bytes(), &[0xC3, 0xA9, 0x00]);
}

#[test]
fn names_without_a_zero_byte_are_never_refused() {
    for name in ["", ":0", "localhost:10.0", "unix/:0", "h\u{f6}st:0", " ", "0"] {
        let mut xlib = Recorder::answering(0);
        assert!(matches!(open(&mut xlib, Some(name)), Ok(None)));
        let mut xlib = Recorder::answering(64);
        assert!(matches!(open(&mut xlib, Some(name)), Ok(Some(_))));
    }
}

#[test]
fn names_with_a_zero_byte_are_always_refused() {
    for name in ["\0", "\0:0", ":0\0", "a\0b\0c", "h\u{f6}st\0"] {
        let mut xlib = Recorder::answering(64);
        assert!(open(&mut xlib, Some(name)).is_err());
        assert!(xlib.calls.is_empty());
    }
}

#[test]
fn only_the_character_of_code_zero_is_refused() {
    // U+0100 and U+10000 have zero bits in plenty, but no zero byte in their encodings.
    assert_eq!(
        x_open_display(Some("\u{100}")).unwrap(),
        ForeignCall::XOpenDisplay { name: Some(vec![0xC4, 0x80, 0x00]) }
    );
    assert_eq!(
        x_open_display(Some("\u{10000}")).unwrap(),
        ForeignCall::XOpenDisplay { name: Some(vec![0xF0, 0x90, 0x80, 0x80, 0x00]) }
    );
    assert!(x_open_display(Some("\u{100}\u{0}")).is_err());
}

#[test]
fn a_null_reply_is_no_connection_and_no_error() {
    assert!(x_open_display_reply(0).is_none());
    let mut xlib = Recorder::answering(0);
    assert!(matches!(open(&mut xlib, None), Ok(None)));
    assert_eq!(xlib.calls.len(), 1);
}

#[test]
fn a_reply_keeps_its_address() {
    assert_eq!(x_open_display_reply(1).unwrap().address(), 1);
    assert_eq!(x_open_display_reply(usize::MAX).unwrap().address(), usize::MAX);
}

#[test]
fn default_screen_queries_the_handle_and_leaves_it_usable() {
    let mut xlib = Recorder::answering(0x9000);
    xlib.screen = 2;
    let mut display = open(&mut xlib, None).unwrap().unwrap();
    assert_eq!(default_screen(&mut xlib, &mut display), 2);
    assert_eq!(default_screen(&mut xlib, &mut display), 2);
    assert_eq!(display.address(), 0x9000);
    assert_eq!(close(&mut xlib, display), 0);
    assert_eq!(
        xlib.calls,
        vec![
            ForeignCall::XOpenDisplay { name: None },
            ForeignCall::XDefaultScreen { display: 0x9000 },
            ForeignCall::XDefaultScreen { display: 0x9000 },
            ForeignCall::XCloseDisplay { display: 0x9000 },
        ]
    );
}

#[test]
fn close_passes_a_negative_status_through() {
    let mut xlib = Recorder::answering(0x9000);
    xlib.status = -1;
    let display = open(&mut xlib, None).unwrap().unwrap();
    assert_eq!(close(&mut xlib, display), -1);
}

#[test]
fn a_borrowed_handle_is_never_released() {
    let mut xlib = Recorder::answering(0x9000);
    {
        let mut display = open(&mut xlib, Some(":1")).unwrap().unwrap();
        for _ in 0..5 {
            default_screen(&mut xlib, &mut display);
            assert_eq!(display.address(), 0x9000);
        }
    }
    assert_eq!(xlib.calls.len(), 6);
    assert_eq!(xlib.releases(), 0);
    let display = open(&mut xlib, Some(":1")).unwrap().unwrap();
    close(&mut xlib, display);
    assert_eq!(xlib.releases(), 0);
}

#[test]
fn an_owned_value_is_one_element() {
    let owned: XBox<u64> = XBox::from_raw(0x4000);
    assert_eq!(owned.address(), 0x4000);
    assert_eq!(owned.len(), 1);
}

#[test]
fn an_owned_run_keeps_its_element_count() {
    let owned: XBox<[u32]> = XBox::boxed_slice_from_raw(0x4000, 12);
    assert_eq!(owned.address(), 0x4000);
    assert_eq!(owned.len(), 12);
    let none: XBox<[u8]> = XBox::boxed_slice_from_raw(0x4000, 0);
    assert_eq!(none.len(), 0);
}

#[test]
fn an_owned_run_is_released_once_by_its_base_address() {
    let mut xlib = Recorder::answering(0);
    let owned: XBox<[u32]> = XBox::boxed_slice_from_raw(0x4000, 12);
    xlib.enter(owned.release());
    assert_eq!(xlib.calls, vec![ForeignCall::XFree { data: 0x4000 }]);
    assert_eq!(xlib.releases(), 1);
}

#[test]
fn an_owned_value_is_released_by_its_address() {
    let owned: XBox<i16> = XBox::from_raw(0x20);
    assert_eq!(owned.release(), ForeignCall::XFree { data: 0x20 });
}

#[test]
fn a_null_owned_address_is_kept_as_given() {
    let owned: XBox<u8> = XBox::from_raw(0);
    assert_eq!(owned.address(), 0);
    assert_eq!(owned.release(), ForeignCall::XFree { data: 0 });
}
