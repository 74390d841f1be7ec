use cloud_mirror::identity::{IdentityBytes, NameIdentity};

#[test]
fn name_identity_bytes_are_utf8() {
    let n = NameIdentity::from("h\u{e9}".to_owned());
    assert_eq!(n.as_ref(), &[b'h', 0xc3, 0xa9]);
    assert_eq!(n.as_identity_bytes(), &[b'h', 0xc3, 0xa9]);
}

#[test]
fn name_identity_round_trip() {
    let n = NameIdentity::from("asdf \u{1F600}".to_owned());
    let back = NameIdentity::<&str>::try_from(n.as_ref()).unwrap();
    assert_eq!(back.0, "asdf \u{1F600}");
}

#[test]
fn invalid_utf8_is_an_error() {
    let e = NameIdentity::<&str>::try_from(&[b'a', 0xc3]).unwrap_err();
    assert_eq!(e.valid_up_to(), 1);
    assert!(NameIdentity::<&str>::try_from(&[0xed, 0xa0, 0x80]).is_err());
}

#[test]
fn vec_identity_bytes() {
    let v: Vec<u8> = vec![1, 2, 3];
    assert_eq!(v.as_identity_bytes(), &[1, 2, 3]);
}
