use cloud_mirror::wide::{LocalPWSTR, OwnedCWSTR, PwstrCall};
use widestring::U16CString;

#[test]
fn owned_cwstr_buffer_has_terminator() {
    let s = U16CString::from_str("ab").unwrap();
    let owned = OwnedCWSTR::from_ucstring(&s);
    assert_eq!(owned.get_pcwstr(), &[b'a' as u16, b'b' as u16, 0]);
}

#[test]
fn local_pwstr_success_keeps_string() {
    let s = LocalPWSTR::new(|| PwstrCall { succeeded: true, written: vec![83, 45, 49], last_error: 0 })
        .unwrap();
    assert_eq!(s.as_wide(), &[83, 45, 49]);
}

#[test]
fn local_pwstr_failure_reports_last_error() {
    let e = LocalPWSTR::new(|| PwstrCall { succeeded: false, written: vec![], last_error: 5 })
        .err()
        .unwrap();
    assert_eq!(e.code as u32, 0x80070005);
}
