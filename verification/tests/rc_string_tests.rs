use ludo::rc_string::RCString;
use ludo::rc_string::c_buffer_prefix;
use ludo::rc_string::contains_nul;

#[test]
fn from_rstr_keeps_both_views() {
    let s = RCString::from_rstr("hello");
    assert_eq!(s.get_rstr(), "hello");
    assert_eq!(s.get_cstr(), &b"hello\0"[..]);
}

#[test]
fn from_rstr_empty_text() {
    let s = RCString::from_rstr("");
    assert_eq!(s.get_rstr(), "");
    assert_eq!(s.get_cstr(), &b"\0"[..]);
}

#[test]
fn from_rstr_multibyte_text() {
    let s = RCString::from_rstr("h\u{e9}llo");
    assert_eq!(s.get_rstr(), "h\u{e9}llo");
    let mut expected = "h\u{e9}llo".as_bytes().to_vec();
    expected.push(0);
    assert_eq!(s.get_cstr(), expected.as_slice());
}

#[test]
fn from_cstr_keeps_both_views() {
    let s = RCString::from_cstr(b"world");
    assert_eq!(s.get_rstr(), "world");
    assert_eq!(s.get_cstr(), &b"world\0"[..]);
}

#[test]
fn set_rstr_updates_both_views() {
    let mut s = RCString::from_rstr("old");
    s.set_rstr("new text");
    assert_eq!(s.get_rstr(), "new text");
    assert_eq!(s.get_cstr(), &b"new text\0"[..]);
}

#[test]
fn set_cstr_updates_both_views() {
    let mut s = RCString::from_rstr("old");
    s.set_cstr(b"from c");
    assert_eq!(s.get_rstr(), "from c");
    assert_eq!(s.get_cstr(), &b"from c\0"[..]);
}

#[test]
fn clone_keeps_both_views() {
    let s = RCString::from_rstr("copy me");
    let t = s.clone();
    assert_eq!(t.get_rstr(), s.get_rstr());
    assert_eq!(t.get_cstr(), s.get_cstr());
}

#[test]
fn contains_nul_finds_inner_nul() {
    assert!(contains_nul(b"a\0b"));
    assert!(contains_nul(b"\0"));
    assert!(!contains_nul(b"ab"));
    assert!(!contains_nul(b""));
}

#[test]
fn c_buffer_prefix_stops_at_first_nul() {
    assert_eq!(c_buffer_prefix(b"AB\0C"), b"AB".to_vec());
    assert_eq!(c_buffer_prefix(b"\0rest"), Vec::<u8>::new());
    assert_eq!(c_buffer_prefix(b"no nul"), b"no nul".to_vec());
    assert_eq!(c_buffer_prefix(b""), Vec::<u8>::new());
}
