use windows_helpers::hstring::is_leading_surrogate;
use windows_helpers::hstring::HStringExt;

#[test]
fn leading_surrogate_boundaries() {
    assert!(!is_leading_surrogate(0xD7FF));
    assert!(is_leading_surrogate(0xD800));
    assert!(is_leading_surrogate(0xDBFF));
    assert!(!is_leading_surrogate(0xDC00));
    assert!(!is_leading_surrogate(0x0041));
}

#[test]
fn truncation_with_room_returns_the_string_whole() {
    let s: Vec<u16> = vec![0x41, 0x42];
    assert_eq!(s.as_safely_truncated_wide(2), vec![0x41, 0x42]);
    assert_eq!(s.as_safely_truncated_wide(5), vec![0x41, 0x42]);
}

#[test]
fn truncation_without_room_only_guards_the_last_surrogate() {
    // With a shorter target, a string not ending in a leading surrogate
    // comes back whole...
    let s: Vec<u16> = vec![0x41, 0x42, 0x43];
    assert_eq!(s.as_safely_truncated_wide(1), vec![0x41, 0x42, 0x43]);

    // ...while one ending in a leading surrogate loses that wide char, so
    // the pair is not cut in half.
    let s: Vec<u16> = vec![0x41, 0xD83D];
    assert_eq!(s.as_safely_truncated_wide(1), vec![0x41]);
}

#[test]
fn truncation_of_the_empty_string() {
    let s: Vec<u16> = Vec::new();
    assert_eq!(s.as_safely_truncated_wide(0), Vec::<u16>::new());
    assert_eq!(s.as_safely_truncated_wide(3), Vec::<u16>::new());
}

#[test]
fn write_puts_text_terminator_and_keeps_the_tail() {
    let s: Vec<u16> = vec![0x48, 0x69];
    let mut buf: Vec<u16> = vec![0xAAAA; 5];
    s.write_truncated(&mut buf);
    assert_eq!(buf, vec![0x48, 0x69, 0, 0xAAAA, 0xAAAA]);
}

#[test]
fn write_of_the_empty_string_writes_only_the_terminator() {
    let s: Vec<u16> = Vec::new();
    let mut buf: Vec<u16> = vec![0xAAAA; 3];
    s.write_truncated(&mut buf);
    assert_eq!(buf, vec![0, 0xAAAA, 0xAAAA]);
}

#[test]
fn write_drops_a_trailing_surrogate_that_would_not_fit() {
    // Two wide chars and a terminator need three slots; with only two, the
    // trailing leading-surrogate is dropped and the rest fits.
    let s: Vec<u16> = vec![0x41, 0xD83D];
    let mut buf: Vec<u16> = vec![0xAAAA; 2];
    s.write_truncated(&mut buf);
    assert_eq!(buf, vec![0x41, 0]);
}
