use webserver::bounded::BoundedStr;

#[test]
fn bound_is_inclusive() {
    let s = "a".repeat(255);
    let b = BoundedStr::<255>::new(s.clone()).unwrap();
    assert_eq!(b.as_str(), s);
    assert_eq!(b.len(), 255);
    let e = BoundedStr::<255>::new("a".repeat(256)).unwrap_err();
    assert_eq!(e.max, 255);
    assert_eq!(e.got, 256);
    assert_eq!(e.string, "a".repeat(256));
}

#[test]
fn length_counts_bytes() {
    // 128 two-byte characters are 256 bytes.
    let s = "\u{e4}".repeat(128);
    assert!(BoundedStr::<255>::new(s.clone()).is_err());
    assert!(BoundedStr::<256>::new(s).is_ok());
}

#[test]
fn empty_and_copies() {
    let e = BoundedStr::<3>::empty();
    assert_eq!(e.as_str(), "");
    let b = BoundedStr::<3>::new("abc".to_string()).unwrap();
    assert_eq!(b.copy().as_str(), "abc");
    assert_eq!(b.to_string(), "abc");
    assert_eq!(b.into_inner(), "abc");
}
