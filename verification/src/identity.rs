//! Identity blobs: the bytes a provider attaches to a sync root or a
//! placeholder, and the name identity that stores a UTF-8 name there.
use vstd::prelude::*;
use vstd::utf8::*;
use vstd::string::*;
use std::str::Utf8Error;

verus! {

broadcast use {encode_utf8_valid_utf8, encode_utf8_decode_utf8};

/// A value that can stand as an identity blob.
pub trait IdentityBytes {
    /// The bytes of the blob.
    spec fn identity_bytes(&self) -> Seq<u8>;

    /// Borrows the bytes of the blob.
    fn as_identity_bytes(&self) -> (r: &[u8])
        ensures
            r@ == self.identity_bytes(),
    ;
}

impl IdentityBytes for Vec<u8> {
    open spec fn identity_bytes(&self) -> Seq<u8> {
        self@
    }

    fn as_identity_bytes(&self) -> (r: &[u8]) {
        self.as_slice()
    }
}

/// The error of `std::str::from_utf8`.
#[verifier::external_type_specification]
#[verifier::external_body]
pub struct ExUtf8Error(Utf8Error);

/// `std::str::from_utf8`: the bytes read as a string when they are valid
/// UTF-8, and an error when they are not.
#[verifier::external_body]
fn str_from_utf8(v: &[u8]) -> (r: Result<&str, Utf8Error>)
    ensures
        r is Ok <==> valid_utf8(v@),
        r matches Ok(s) ==> s.spec_bytes() == v@,
{
    std::str::from_utf8(v)
}

/// An identity made of a name.
#[derive(Debug)]
pub struct NameIdentity<T>(pub T);

impl From<String> for NameIdentity<String> {
    fn from(value: String) -> (r: Self) {
        NameIdentity(value)
    }
}

impl vstd::std_specs::convert::FromSpecImpl<String> for NameIdentity<String> {
    open spec fn obeys_from_spec() -> bool {
        true
    }

    open spec fn from_spec(v: String) -> Self {
        NameIdentity(v)
    }
}

impl NameIdentity<String> {
    /// The UTF-8 bytes of the name.
    pub fn as_ref(&self) -> (r: &[u8])
        ensures
            r@ == encode_utf8(self.0@),
    {
        self.0.as_str().as_bytes()
    }
}

impl IdentityBytes for NameIdentity<String> {
    open spec fn identity_bytes(&self) -> Seq<u8> {
        encode_utf8(self.0@)
    }

    fn as_identity_bytes(&self) -> (r: &[u8]) {
        self.as_ref()
    }
}

impl<'a> NameIdentity<&'a str> {
    /// Reads a name from an identity blob: it succeeds exactly when the bytes
    /// are valid UTF-8, and the name is the text they encode.
    pub fn try_from(value: &'a [u8]) -> (r: Result<NameIdentity<&'a str>, Utf8Error>)
        ensures
            r is Ok <==> valid_utf8(value@),
            r matches Ok(n) ==> n.0@ == decode_utf8(value@),
    {
        match str_from_utf8(value) {
            Ok(s) => {
                proof {
                    assert(decode_utf8(encode_utf8(s@)) == s@);
                }
                Ok(NameIdentity(s))
            },
            Err(e) => Err(e),
        }
    }
}

/// A name stored as an identity reads back as the same name: the bytes that
/// `as_ref` gives for a name are always valid UTF-8, so `try_from` accepts
/// them, and they decode to that name.
pub proof fn lemma_name_identity_round_trip(name: Seq<char>)
    ensures
        valid_utf8(encode_utf8(name)),
        decode_utf8(encode_utf8(name)) == name,
{
}

} // verus!
