use h2client::chars::Chars;

#[test]
fn chars_from_static() {
    let c = Chars::from_static("héllo");
    assert!(!c.is_empty());
    assert_eq!(&c.into_inner()[..], "héllo".as_bytes());
    assert!(Chars::from_static("").is_empty());
}

#[test]
fn chars_try_from_valid() {
    let c = Chars::try_from(bytes::Bytes::from(vec![0xE2, 0x82, 0xAC])).unwrap();
    assert_eq!(&c.into_inner()[..], "€".as_bytes());
}

#[test]
fn chars_try_from_invalid() {
    assert!(Chars::try_from(bytes::Bytes::from(vec![0xFF, 0x41])).is_err());
    assert!(Chars::try_from(bytes::Bytes::from(vec![0xE2, 0x82])).is_err());
}

#[test]
fn chars_try_from_empty() {
    let c = Chars::try_from(bytes::Bytes::new()).unwrap();
    assert!(c.is_empty());
}
