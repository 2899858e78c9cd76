use libxdo::delay::{delay_to_microseconds, optional_delay_to_microseconds, Delay};
use libxdo::error::Error;
use libxdo::handle::Xdo;
use libxdo::modifiers::CharcodeMapList;
use libxdo::status::{ptr_or_error, status_to_result};

#[test]
fn null_constructor_pointer_is_rejected() {
    let r = Xdo::from_raw(0);
    match r {
        Err(e) => assert_eq!(e.message(), "libxdo::xdo_new returned an error"),
        Ok(_) => panic!("a null instance pointer must not make a handle"),
    }
}

#[test]
fn nonnull_constructor_pointer_makes_a_handle() {
    let xdo = Xdo::from_raw(0x1).unwrap();
    assert_eq!(xdo.handle().as_raw(), 0x1);
}

#[test]
fn ptr_or_error_keeps_nonnull_addresses() {
    assert_eq!(ptr_or_error(0x2a, "xdo_new").unwrap(), 0x2a);
    let e = ptr_or_error(0, "xdo_new").unwrap_err();
    assert!(matches!(e, Error::Failed("xdo_new")));
}

#[test]
fn status_sentinels_decode() {
    assert!(status_to_result(0, "get_active_window").is_ok());
    let e = status_to_result(1, "get_active_window").unwrap_err();
    assert!(matches!(e, Error::Failed("get_active_window")));
}

#[test]
fn active_window_roundtrip() {
    let xdo = Xdo::from_raw(0x1).unwrap();
    let w = xdo.handle().get_active_window(0, 0x4200007).unwrap();
    assert_eq!(w.id(), 0x4200007);
    let repr = w.debug_repr();
    assert!(repr.contains("0x4200007"));
    assert_eq!(repr, "Window { id: 0x4200007 }");
}

#[test]
fn active_window_failure_is_reported() {
    let xdo = Xdo::from_raw(0x1).unwrap();
    match xdo.handle().get_active_window(1, 0) {
        Err(e) => assert!(matches!(e, Error::Failed("get_active_window"))),
        Ok(_) => panic!("a failure sentinel must not make a window reference"),
    }
}

#[test]
fn window_name_decodes_utf8() {
    let xdo = Xdo::from_raw(0x1).unwrap();
    let w = xdo.handle().get_active_window(0, 7).unwrap();
    let name = w.get_name(0, b"xterm").unwrap();
    assert_eq!(name, "xterm");
    let name = w.get_name(0, "caf\u{e9} \u{2014} \u{4e9c}".as_bytes()).unwrap();
    assert_eq!(name, "caf\u{e9} \u{2014} \u{4e9c}");
    assert_eq!(name.chars().count(), 8);
}

#[test]
fn window_name_with_invalid_utf8_is_reported() {
    let xdo = Xdo::from_raw(0x1).unwrap();
    let w = xdo.handle().get_active_window(0, 7).unwrap();
    let e = w.get_name(0, &[0xff, 0xfe]).unwrap_err();
    match e {
        Error::Utf8(c) => assert_eq!(c.valid_up_to, 0),
        _ => panic!("invalid utf-8 must be reported as the utf-8 error kind"),
    }
}

#[test]
fn window_name_failure_is_reported() {
    let xdo = Xdo::from_raw(0x1).unwrap();
    let w = xdo.handle().get_active_window(0, 7).unwrap();
    let e = w.get_name(1, b"").unwrap_err();
    assert!(matches!(e, Error::Failed("get_window_name")));
}

#[test]
fn keysequence_with_embedded_nul_never_makes_a_request() {
    let xdo = Xdo::from_raw(0x1).unwrap();
    let w = xdo.handle().get_active_window(0, 7).unwrap();
    match w.keysequence_request("Ret\0urn", None) {
        Err(Error::NullByteInString(c)) => assert_eq!(c.nul_position, 3),
        _ => panic!("an embedded NUL must be reported as the NUL-in-string error kind"),
    }
}

#[test]
fn keysequence_delay_is_forwarded_in_microseconds() {
    let xdo = Xdo::from_raw(0x1).unwrap();
    let w = xdo.handle().get_active_window(0, 0x2a).unwrap();
    let delay = Delay { seconds: 2, nanoseconds: 500_000 };
    let q = w.keysequence_request("Return", Some(delay)).unwrap();
    assert_eq!(q.delay_microseconds, 2_000_500);
    assert_eq!(q.bytes, b"Return\0");
    assert_eq!(q.window, 0x2a);
}

#[test]
fn absent_delay_is_zero_microseconds() {
    let xdo = Xdo::from_raw(0x1).unwrap();
    let w = xdo.handle().get_active_window(0, 7).unwrap();
    let q = w.keysequence_request("ctrl+shift+a", None).unwrap();
    assert_eq!(q.delay_microseconds, 0);
    assert_eq!(q.bytes, b"ctrl+shift+a\0");
}

#[test]
fn delay_conversion_formula() {
    assert_eq!(delay_to_microseconds(Delay { seconds: 2, nanoseconds: 500_000 }), 2_000_500);
    assert_eq!(delay_to_microseconds(Delay { seconds: 0, nanoseconds: 999 }), 0);
    assert_eq!(delay_to_microseconds(Delay { seconds: 0, nanoseconds: 1_500 }), 1);
    assert_eq!(optional_delay_to_microseconds(None), 0);
}

#[test]
fn overlong_delay_truncates_to_native_width() {
    assert_eq!(delay_to_microseconds(Delay { seconds: 4295, nanoseconds: 0 }), 32_704);
}

#[test]
fn modifier_snapshot_adopts_reported_array() {
    let xdo = Xdo::from_raw(0x1).unwrap();
    let mods = xdo.handle().get_active_modifiers(0, 0x10, 3).unwrap();
    assert_eq!(mods.addr(), 0x10);
    assert_eq!(mods.len(), 3);
    assert!(mods.needs_release());
}

#[test]
fn modifier_snapshot_may_be_empty() {
    let xdo = Xdo::from_raw(0x1).unwrap();
    let mods = xdo.handle().get_active_modifiers(0, 0, 0).unwrap();
    assert_eq!(mods.addr(), 0);
    assert_eq!(mods.len(), 0);
    assert!(!mods.needs_release());
    let empty = CharcodeMapList::empty();
    assert_eq!(empty.addr(), 0);
    assert_eq!(empty.len(), 0);
    assert!(!empty.needs_release());
}

#[test]
fn modifier_failures_are_reported() {
    let xdo = Xdo::from_raw(0x1).unwrap();
    match xdo.handle().get_active_modifiers(1, 0, 0) {
        Err(e) => assert!(matches!(e, Error::Failed("get_active_modifiers"))),
        Ok(_) => panic!("a failure sentinel must not make a snapshot"),
    }
    let w = xdo.handle().get_active_window(0, 7).unwrap();
    let mods = CharcodeMapList::empty();
    assert!(w.set_active_modifiers(&mods, 0).is_ok());
    let e = w.set_active_modifiers(&mods, 1).unwrap_err();
    assert!(matches!(e, Error::Failed("set_active_modifiers")));
    assert!(w.clear_active_modifiers(&mods, 0).is_ok());
    let e = w.clear_active_modifiers(&mods, 1).unwrap_err();
    assert!(matches!(e, Error::Failed("clear_active_modifiers")));
}
