use cloud_mirror::win_error::{hresult_from_win32, WinError};

#[test]
fn hresult_of_win32_codes() {
    assert_eq!(hresult_from_win32(0), 0);
    assert_eq!(hresult_from_win32(122) as u32, 0x8007007A);
    assert_eq!(hresult_from_win32(183) as u32, 0x800700B7);
    assert_eq!(hresult_from_win32(0x0001_0005) as u32, 0x80070005);
    assert_eq!(WinError::from_win32(5), WinError { code: -2147024891 });
}

#[test]
fn hresult_keeps_low_bits_and_facility() {
    for code in [1u32, 5, 0x1234, 0x0012_3456, u32::MAX] {
        let h = hresult_from_win32(code) as u32;
        assert_eq!(h & 0xFFFF, code & 0xFFFF);
        assert_eq!((h >> 16) & 0x7FF, 7);
        assert!((h as i32) < 0);
    }
}
