use vstd::prelude::*;
use vstd::string::StringSliceAdditionalSpecFns;

use http::header::InvalidHeaderValue;
use http::HeaderValue;

verus! {

#[verifier::external_type_specification]
#[verifier::external_body]
pub struct ExHeaderValue(HeaderValue);

#[verifier::external_type_specification]
#[verifier::external_body]
pub struct ExInvalidHeaderValue(InvalidHeaderValue);

/// The bytes that a header value holds.
pub uninterp spec fn header_bytes(v: HeaderValue) -> Seq<u8>;

/// A byte that `http` accepts in a header value: visible ASCII, tab, or any byte
/// from 128 up.
pub open spec fn is_header_byte(b: u8) -> bool {
    (b >= 32 && b != 127) || b == 9
}

/// A byte of visible ASCII, or tab.
pub open spec fn is_ascii_header_byte(b: u8) -> bool {
    (b >= 32 && b < 127) || b == 9
}

/// Relies on `HeaderValue::as_bytes`: the bytes the value holds.
pub assume_specification[ HeaderValue::as_bytes ](v: &HeaderValue) -> (r: &[u8])
    ensures
        r@ == header_bytes(*v),
;

/// Relies on `HeaderValue::from_str`: it accepts a string exactly when every byte is
/// a header byte, and then holds those bytes.
pub assume_specification[ HeaderValue::from_str ](src: &str) -> (r: Result<
    HeaderValue,
    InvalidHeaderValue,
>)
    ensures
        r.is_ok() <==> forall|i: int|
            0 <= i < src.spec_bytes().len() ==> is_header_byte(#[trigger] src.spec_bytes()[i]),
        r.is_ok() ==> header_bytes(r->Ok_0) == src.spec_bytes(),
;

/// A header value whose bytes can be read as a string.
pub struct AsciiHeaderValue {
    value: HeaderValue,
}

impl View for AsciiHeaderValue {
    type V = Seq<u8>;

    open spec fn view(&self) -> Seq<u8> {
        header_bytes(self.value())
    }
}

impl AsciiHeaderValue {
    /// The header value held.
    pub closed spec fn value(&self) -> HeaderValue {
        self.value
    }

    /// Every byte is a header byte.
    pub open spec fn wf(&self) -> bool {
        forall|i: int| 0 <= i < self@.len() ==> is_header_byte(#[trigger] self@[i])
    }

    /// Keeps `value` where all its bytes are visible ASCII or tab.
    pub fn from_value(value: HeaderValue) -> (r: Option<AsciiHeaderValue>)
        ensures
            r is Some <==> forall|i: int|
                0 <= i < header_bytes(value).len() ==> is_ascii_header_byte(
                    #[trigger] header_bytes(value)[i],
                ),
            r is Some ==> r->Some_0.value() == value && r->Some_0@ == header_bytes(value)
                && r->Some_0.wf(),
    {
        let bytes = value.as_bytes();
        let mut i: usize = 0;
        while i < bytes.len()
            invariant
                i <= bytes@.len(),
                bytes@ == header_bytes(value),
                forall|j: int| 0 <= j < i ==> is_ascii_header_byte(#[trigger] bytes@[j]),
            decreases bytes@.len() - i,
        {
            let b = bytes[i];
            if !((b >= 32 && b < 127) || b == 9) {
                return None;
            }
            i += 1;
        }
        Some(AsciiHeaderValue { value })
    }

    /// The header value of `s`, where every byte of it is a header byte.
    pub fn from_str(s: &str) -> (r: Option<AsciiHeaderValue>)
        ensures
            r is Some <==> forall|i: int|
                0 <= i < s.spec_bytes().len() ==> is_header_byte(#[trigger] s.spec_bytes()[i]),
            r is Some ==> r->Some_0@ == s.spec_bytes() && r->Some_0.wf(),
    {
        match HeaderValue::from_str(s) {
            Ok(value) => Some(AsciiHeaderValue { value }),
            Err(_) => None,
        }
    }

    /// The header value.
    pub fn into_value(self) -> (r: HeaderValue)
        ensures
            r == self.value(),
            header_bytes(r) == self@,
    {
        self.value
    }
}

} // verus!
