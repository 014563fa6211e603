use vstd::prelude::*;
use vstd::string::StringSliceAdditionalSpecFns;
use vstd::utf8::{valid_utf8, encode_utf8_valid_utf8};

verus! {

#[verifier::external_type_specification]
#[verifier::external_body]
pub struct ExBytes(bytes::Bytes);

#[verifier::external_type_specification]
#[verifier::external_body]
pub struct ExUtf8Error(std::str::Utf8Error);

/// The bytes that a `bytes::Bytes` buffer holds.
pub uninterp spec fn bytes_content(b: bytes::Bytes) -> Seq<u8>;

/// Relies on `bytes::Bytes::from_static`: the buffer holds exactly the
/// given bytes.
#[verifier::external_body]
fn bytes_from_static(s: &'static [u8]) -> (r: bytes::Bytes)
    ensures
        bytes_content(r) == s@,
{
    bytes::Bytes::from_static(s)
}

/// Relies on `bytes::Bytes::is_empty`: true exactly when the buffer holds
/// no byte.
pub assume_specification[ bytes::Bytes::is_empty ](b: &bytes::Bytes) -> (r: bool)
    ensures
        r == (bytes_content(*b).len() == 0),
;

/// Relies on `std::str::from_utf8`, applied to the buffer's bytes: it
/// succeeds exactly when they are valid UTF-8.
#[verifier::external_body]
fn check_utf8(b: &bytes::Bytes) -> (r: Result<(), std::str::Utf8Error>)
    ensures
        r is Ok <==> valid_utf8(bytes_content(*b)),
{
    std::str::from_utf8(b).map(|_| ())
}

/// An immutable, cheaply shared byte string that is valid UTF-8.
pub struct Chars(bytes::Bytes);

impl View for Chars {
    type V = Seq<u8>;

    closed spec fn view(&self) -> Seq<u8> {
        bytes_content(self.0)
    }
}

impl Chars {
    /// The bytes are valid UTF-8.
    pub open spec fn wf(&self) -> bool {
        valid_utf8(self@)
    }

    pub fn from_static(s: &'static str) -> (r: Chars)
        ensures
            r@ == s.spec_bytes(),
            r.wf(),
    {
        proof {
            encode_utf8_valid_utf8(s@);
        }
        Chars(bytes_from_static(s.as_bytes()))
    }

    pub fn into_inner(self) -> (r: bytes::Bytes)
        ensures
            bytes_content(r) == self@,
    {
        self.0
    }

    /// Takes the buffer if its bytes are valid UTF-8, and gives the
    /// decoding error otherwise.
    pub fn try_from(b: bytes::Bytes) -> (r: Result<Chars, std::str::Utf8Error>)
        ensures
            r is Ok <==> valid_utf8(bytes_content(b)),
            r matches Ok(c) ==> c@ == bytes_content(b) && c.wf(),
    {
        match check_utf8(&b) {
            Ok(()) => Ok(Chars(b)),
            Err(e) => Err(e),
        }
    }

    pub fn is_empty(&self) -> (r: bool)
        ensures
            r == (self@.len() == 0),
    {
        self.0.is_empty()
    }
}

} // verus!
