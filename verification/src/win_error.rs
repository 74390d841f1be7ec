//! Windows error codes as the library carries them.
use vstd::prelude::*;

verus! {

/// `ERROR_INSUFFICIENT_BUFFER`: the buffer handed to a call is too small.
pub const ERROR_INSUFFICIENT_BUFFER: u32 = 122;

/// A failed Windows call, by its `HRESULT` code.
#[derive(PartialEq, Eq, Structural, Clone, Copy, Debug)]
pub struct WinError {
    pub code: i32,
}

/// The `HRESULT` that stands for a Win32 error code: zero for zero, and
/// otherwise the low sixteen bits of the code under the Win32 facility with the
/// failure bit set.
pub open spec fn spec_hresult_from_win32(code: u32) -> i32 {
    if code == 0 {
        0
    } else {
        ((code & 0xFFFFu32) | 0x0007_0000u32 | 0x8000_0000u32) as i32
    }
}

/// Maps a Win32 error code to its `HRESULT`.
pub fn hresult_from_win32(code: u32) -> (r: i32)
    ensures
        r == spec_hresult_from_win32(code),
        code != 0 ==> r < 0,
        code == 0 ==> r == 0,
{
    if code == 0 {
        0
    } else {
        let bits: u32 = (code & 0xFFFFu32) | 0x0007_0000u32 | 0x8000_0000u32;
        assert((bits as i32) < 0) by (bit_vector)
            requires
                bits == (code & 0xFFFFu32) | 0x0007_0000u32 | 0x8000_0000u32,
        ;
        #[verifier::truncate]
        (bits as i32)
    }
}

impl WinError {
    /// The error that a failed call reports through the thread's last Win32
    /// error code.
    pub fn from_win32(last_error: u32) -> (r: WinError)
        ensures
            r.code == spec_hresult_from_win32(last_error),
    {
        WinError { code: hresult_from_win32(last_error) }
    }
}

/// The `HRESULT` of a nonzero Win32 error code keeps the low sixteen bits of
/// the code, under the Win32 facility, so the code can be read back from it.
pub proof fn lemma_hresult_keeps_code(code: u32)
    requires
        code != 0,
    ensures
        (spec_hresult_from_win32(code) as u32) & 0xFFFFu32 == code & 0xFFFFu32,
        ((spec_hresult_from_win32(code) as u32) >> 16u32) & 0x7FFu32 == 7,
{
    let bits: u32 = (code & 0xFFFFu32) | 0x0007_0000u32 | 0x8000_0000u32;
    assert(bits & 0xFFFFu32 == code & 0xFFFFu32 && (bits >> 16u32) & 0x7FFu32 == 7) by (bit_vector)
        requires
            bits == (code & 0xFFFFu32) | 0x0007_0000u32 | 0x8000_0000u32,
    ;
    assert((bits as i32) as u32 == bits) by (bit_vector);
}

} // verus!
