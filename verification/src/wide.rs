//! Wide (UTF-16) C strings, held in `widestring::U16CString`.
use vstd::prelude::*;
use widestring::U16CString;
use crate::win_error::{spec_hresult_from_win32, WinError};

verus! {

/// The owned wide C string of the `widestring` crate.
#[verifier::external_type_specification]
#[verifier::external_body]
pub struct ExU16CString(U16CString);

/// The code units of a wide C string, without its nul terminator.
pub uninterp spec fn wide_units(s: U16CString) -> Seq<u16>;

/// The units of `v` before its first nul unit (all of `v` when it holds none).
pub open spec fn until_nul(v: Seq<u16>) -> Seq<u16>
    decreases v.len(),
{
    if v.len() == 0 {
        v
    } else if v[0] == 0 {
        Seq::empty()
    } else {
        seq![v[0]] + until_nul(v.drop_first())
    }
}

/// `U16CString::from_vec_truncate`: the string made of the units of `v` up to its
/// first nul. The crate truncates the vector after that nul (or appends one) and
/// keeps the units before it.
#[verifier::external_body]
pub(crate) fn u16cstring_from_vec_truncate(v: Vec<u16>) -> (r: U16CString)
    ensures
        wide_units(r) == until_nul(v@),
{
    U16CString::from_vec_truncate(v)
}

/// `U16CStr::as_slice_with_nul`: the units of the string followed by its nul
/// terminator.
#[verifier::external_body]
pub(crate) fn u16cstring_as_slice_with_nul(s: &U16CString) -> (r: &[u16])
    ensures
        r@ == wide_units(*s).push(0u16),
{
    s.as_slice_with_nul()
}

/// An owned, nul-terminated wide string buffer, as handed to a call that
/// takes a `PCWSTR`.
#[derive(Debug)]
pub struct OwnedCWSTR {
    buf: Vec<u16>,
}

impl View for OwnedCWSTR {
    type V = Seq<u16>;

    closed spec fn view(&self) -> Seq<u16> {
        self.buf@
    }
}

impl OwnedCWSTR {
    /// The buffer of the wide C string `s`: its units and its terminator.
    pub fn from_ucstring(s: &U16CString) -> (r: OwnedCWSTR)
        ensures
            r@ == wide_units(*s).push(0u16),
    {
        OwnedCWSTR { buf: vstd::slice::slice_to_vec(u16cstring_as_slice_with_nul(s)) }
    }

    /// The units that a `PCWSTR` to this buffer designates.
    pub fn get_pcwstr(&self) -> (r: &[u16])
        ensures
            r@ == self@,
    {
        self.buf.as_slice()
    }
}

/// What a call that allocates a wide string for its caller reported: whether
/// it succeeded, the units of the string it stored (without terminator), and
/// the thread's last Win32 error code after it.
#[derive(Debug)]
pub struct PwstrCall {
    pub succeeded: bool,
    pub written: Vec<u16>,
    pub last_error: u32,
}

/// A wide string that the system allocated and `LocalFree` releases.
#[derive(Debug)]
pub struct LocalPWSTR {
    units: Vec<u16>,
}

impl View for LocalPWSTR {
    type V = Seq<u16>;

    closed spec fn view(&self) -> Seq<u16> {
        self.units@
    }
}

impl LocalPWSTR {
    /// Makes the call `f`, which stores a newly allocated string: the string
    /// when it succeeded, and otherwise the error of its last Win32 error code.
    pub fn new<F: FnOnce() -> PwstrCall>(f: F) -> (r: Result<LocalPWSTR, WinError>)
        requires
            call_requires(f, ()),
        ensures
            exists|c: PwstrCall|
                #[trigger] call_ensures(f, (), c) && if c.succeeded {
                    r matches Ok(s) && s@ == c.written@
                } else {
                    r == Err::<LocalPWSTR, WinError>(
                        WinError { code: spec_hresult_from_win32(c.last_error) },
                    )
                },
    {
        let c = f();
        let ghost call = c;
        let r = if c.succeeded {
            Ok(LocalPWSTR { units: c.written })
        } else {
            Err(WinError::from_win32(c.last_error))
        };
        assert(call_ensures(f, (), call));
        r
    }

    /// The units of the string.
    pub fn as_wide(&self) -> (r: &[u16])
        ensures
            r@ == self@,
    {
        self.units.as_slice()
    }
}

/// What `until_nul` keeps of `v` is a prefix of it with no nul unit, and it
/// stops either at the end of `v` or just before a nul unit.
pub proof fn lemma_until_nul_is_prefix_before_nul(v: Seq<u16>)
    ensures
        until_nul(v).len() <= v.len(),
        until_nul(v) == v.subrange(0, until_nul(v).len() as int),
        !until_nul(v).contains(0u16),
        until_nul(v).len() < v.len() ==> v[until_nul(v).len() as int] == 0u16,
    decreases v.len(),
{
    if v.len() == 0 {
        assert(v.subrange(0, 0) =~= v);
    } else if v[0] == 0 {
        assert(v.subrange(0, 0) =~= Seq::<u16>::empty());
    } else {
        let rest = v.drop_first();
        lemma_until_nul_is_prefix_before_nul(rest);
        let u = until_nul(v);
        assert(u == seq![v[0]] + until_nul(rest));
        assert(u =~= v.subrange(0, u.len() as int));
        if u.contains(0u16) {
            let i = choose|i: int| 0 <= i < u.len() && u[i] == 0u16;
            if i > 0 {
                assert(until_nul(rest)[i - 1] == 0u16);
            }
        }
        if u.len() < v.len() {
            assert(v[u.len() as int] == rest[until_nul(rest).len() as int]);
        }
    }
}

} // verus!
