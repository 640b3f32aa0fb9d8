use voxcode::text::is_blank;

#[test]
fn blank_lines() {
    assert!(is_blank(""));
    assert!(is_blank(" "));
    assert!(is_blank("\t \r\n"));
    assert!(is_blank("\u{a0}\u{2009}\u{3000}"));
}

#[test]
fn lines_with_content_are_not_blank() {
    assert!(!is_blank("{}"));
    assert!(!is_blank("  {\"type\":\"error\"}  "));
    assert!(!is_blank("\u{200b}"));
    assert!(!is_blank(" \u{feff} "));
}
