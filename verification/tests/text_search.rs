use pbskids_dl::text::{find_bytes, find_script};

#[test]
fn finds_first_occurrence() {
    assert_eq!(find_bytes(b"abcabc", b"bc", 0), Some(1));
    assert_eq!(find_bytes(b"abcabc", b"bc", 2), Some(4));
    assert_eq!(find_bytes(b"abcabc", b"x", 0), None);
    assert_eq!(find_bytes(b"ab", b"abc", 0), None);
    assert_eq!(find_bytes(b"abc", b"", 0), Some(0));
    assert_eq!(find_bytes(b"abc", b"", 3), Some(3));
    assert_eq!(find_bytes(b"abc", b"c", 5), None);
}

#[test]
fn script_is_between_first_markers() {
    let page = b"xx<s>one</e><s>two</e>";
    assert_eq!(find_script(page, b"<s>", b"</e>"), Some((5, 8)));
    assert_eq!(&page[5..8], b"one");
    assert_eq!(find_script(page, b"<q>", b"</e>"), None);
    assert_eq!(find_script(b"<s>open", b"<s>", b"</e>"), None);
}

#[test]
fn end_marker_is_searched_after_start_marker() {
    let page = b"</e><s>body</e>";
    assert_eq!(find_script(page, b"<s>", b"</e>"), Some((7, 11)));
}
