use fswtch::command::{
    borrowed_cstr_to_string, command_text, cstring, free_cstr, is_white, latin_text, nul_position,
    optional_cstring, strdup_to_string, trim, CText, StaticCStr,
};
use fswtch::status::{
    from_switch_bool, status_to_result, switch_bool, Cause, Status, SwitchError, GENERR,
    SWITCH_FALSE, SWITCH_TRUE,
};
use std::cell::Cell;

#[test]
fn cstring_round_trip() {
    let c = cstring("hello").unwrap();
    assert_eq!(c.to_str().unwrap(), "hello");
}

#[test]
fn cstring_rejects_interior_nul() {
    assert!(cstring("a\0b").is_err());
}

#[test]
fn borrowed_cstr_handles_null_and_value() {
    assert!(borrowed_cstr_to_string(None).is_none());
    let c = cstring("world").unwrap();
    assert_eq!(borrowed_cstr_to_string(Some(c.to_bytes())), Some("world".to_owned()));
}

#[test]
fn static_cstr_from_static_str() {
    let s: &'static str = "literal";
    let c: CText = s.into_static_cstr().unwrap();
    assert_eq!(c.to_str().unwrap(), "literal");
    let again = c.into_static_cstr().unwrap();
    assert_eq!(again.to_str().unwrap(), "literal");
    assert_eq!("x\0".into_static_cstr().unwrap_err(), SwitchError(Status(GENERR)));
}

#[test]
fn c_strings_keep_their_bytes() {
    let c = cstring("höhe €").unwrap();
    assert_eq!(c.as_bytes_with_nul(), "höhe €\0".as_bytes());
    assert_eq!(c.to_bytes(), "höhe €".as_bytes());
    assert_eq!(cstring("").unwrap().as_bytes_with_nul(), b"\0");
    assert_eq!(cstring("\0").unwrap_err(), SwitchError(Status(GENERR)));
    assert!(optional_cstring(None).unwrap().is_none());
    assert_eq!(optional_cstring(Some("k")).unwrap().unwrap().to_bytes(), b"k");
    assert!(optional_cstring(Some("k\0")).is_err());
}

#[test]
fn memory_ends_at_the_first_zero() {
    assert_eq!(nul_position(b"abc\0def"), 3);
    assert_eq!(nul_position(b"abc"), 3);
    assert_eq!(nul_position(b"\0abc"), 0);
    assert_eq!(nul_position(b""), 0);
    assert_eq!(CText::from_memory(b"abc\0def").to_bytes(), b"abc");
    assert_eq!(CText::from_memory(b"abc").as_bytes_with_nul(), b"abc\0");
}

#[test]
fn text_that_is_not_utf8_is_absent() {
    assert_eq!(borrowed_cstr_to_string(Some(vec![0x61, 0xff])), None);
    assert_eq!(CText::from_memory(&[0xc3]).to_str(), None);
}

#[test]
fn owned_text_is_freed_once_it_is_read() {
    let freed = Cell::new(0);
    assert_eq!(strdup_to_string(5, b"text".to_vec(), |p| freed.set(p)), Some("text".to_owned()));
    assert_eq!(freed.get(), 5);
    assert_eq!(strdup_to_string(6, vec![0xff], |p| freed.set(p)), None);
    assert_eq!(freed.get(), 6);
    assert_eq!(strdup_to_string(0, vec![], |_| panic!("nothing to free")), None);
    free_cstr(0, |_| panic!("nothing to free"));
    free_cstr(9, |p| freed.set(p));
    assert_eq!(freed.get(), 9);
}

#[test]
fn commands_are_trimmed() {
    assert_eq!(command_text(None), None);
    assert_eq!(command_text(Some(b"  \t\r\n ".to_vec())), None);
    assert_eq!(command_text(Some(b"".to_vec())), None);
    assert_eq!(command_text(Some(b"  status all \n".to_vec())), Some("status all".to_owned()));
    assert_eq!(
        command_text(Some("\u{3000}\u{a0}über\u{2028}".as_bytes().to_vec())),
        Some("über".to_owned())
    );
    assert_eq!(command_text(Some(vec![0x20, 0xff])), None);
}

#[test]
fn trimming_agrees_with_std() {
    for c in (0..=0x10ffffu32).filter_map(char::from_u32) {
        assert_eq!(is_white(c), c.is_whitespace(), "{:x}", c as u32);
    }
    for s in ["", " ", "a", " a ", "a b", "\u{85}x y\u{2003}", "\u{200b}z"] {
        assert_eq!(trim(s), s.trim());
        assert_eq!(trim(&trim(s)), trim(s));
    }
}

#[test]
fn bytes_are_latin_characters() {
    for b in 0..=255u8 {
        assert_eq!(latin_text(b), (b as char).to_string());
    }
}

#[test]
fn statuses_and_booleans() {
    assert_eq!(status_to_result(0), Ok(()));
    assert_eq!(status_to_result(1), Err(SwitchError(Status(1))));
    assert_eq!(Status::from_raw(17).raw(), 17);
    assert_eq!(Cause::from_raw(44).raw(), 44);
    assert_eq!(SwitchError::generic(), SwitchError(Status(GENERR)));
    assert_eq!(switch_bool(true), SWITCH_TRUE);
    assert_eq!(switch_bool(false), SWITCH_FALSE);
    assert!(from_switch_bool(2));
    assert!(!from_switch_bool(SWITCH_FALSE));
}
