use rosin::title::wide_title;

#[test]
fn wide_title_ascii() {
    assert_eq!(wide_title("Hi"), vec![0x48, 0x69]);
}

#[test]
fn wide_title_empty() {
    assert_eq!(wide_title(""), Vec::<u16>::new());
}

#[test]
fn wide_title_matches_std_utf16() {
    for t in ["rosin app", "héllo", "日本語", "a😀b", "\u{10FFFF}"] {
        let expected: Vec<u16> = t.encode_utf16().collect();
        assert_eq!(wide_title(t), expected);
    }
}

#[test]
fn wide_title_surrogate_pair() {
    assert_eq!(wide_title("😀"), vec![0xD83D, 0xDE00]);
}
