use narma::capture::relay_text;
use narma::host::Fatal;

#[test]
fn relay_decodes_utf8() {
    assert_eq!(relay_text(b"warning: unused\n".to_vec(), false), Ok("warning: unused\n".to_string()));
    assert_eq!(relay_text("héllo ✓".as_bytes().to_vec(), false), Ok("héllo ✓".to_string()));
    assert_eq!(relay_text(Vec::new(), false), Ok(String::new()));
}

#[test]
fn relay_adds_the_line_break_asked_for() {
    assert_eq!(relay_text(b"1c1".to_vec(), true), Ok("1c1\n".to_string()));
    assert_eq!(relay_text(Vec::new(), true), Ok("\n".to_string()));
}

#[test]
fn relay_refuses_malformed_bytes() {
    assert_eq!(relay_text(vec![0xff], false), Err(Fatal::InvalidUtf8));
    assert_eq!(relay_text(vec![b'a', 0xc3], true), Err(Fatal::InvalidUtf8));
    assert_eq!(relay_text(vec![0xed, 0xa0, 0x80], false), Err(Fatal::InvalidUtf8));
}
