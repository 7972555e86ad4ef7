//! How a remote call identifies itself.
use http::header::{HeaderValue, InvalidHeaderValue};
use vstd::prelude::*;
use vstd::string::StringSliceAdditionalSpecFns;

verus! {

/// Name of the header that carries the identifier of a request.
pub const REQUEST_ID_HEADER: &'static str = "x-request-id";

/// `http::header::HeaderValue`: the bytes of a header.
#[verifier::external_type_specification]
#[verifier::external_body]
pub struct ExHeaderValue(HeaderValue);

/// `http::header::InvalidHeaderValue`: says that a text is no header.
#[verifier::external_type_specification]
#[verifier::external_body]
pub struct ExInvalidHeaderValue(InvalidHeaderValue);

/// The bytes that a header holds.
pub uninterp spec fn header_bytes(value: HeaderValue) -> Seq<u8>;

/// Whether a header may hold the character: a tab, or anything but a control character
/// of ASCII.
pub open spec fn header_char(c: char) -> bool {
    c == '\t' || (c as u32 >= 32 && c as u32 != 127)
}

/// Calls `HeaderValue::from_str`. It succeeds if and only if the text holds nothing
/// but what a header may hold, and the header then holds the bytes of the text.
#[verifier::external_body]
pub(crate) fn header_value(text: &str) -> (r: Result<HeaderValue, InvalidHeaderValue>)
    ensures
        r is Ok <==> (forall|i: int| 0 <= i < text@.len() ==> header_char(#[trigger] text@[i])),
        r matches Ok(value) ==> header_bytes(value) == text.spec_bytes(),
{
    HeaderValue::from_str(text)
}

/// Whether `c` is a hexadecimal digit, in lower case.
pub open spec fn hex_digit(c: char) -> bool {
    ('0' <= c && c <= '9') || ('a' <= c && c <= 'f')
}

/// Whether a text is the identifier of a request: a random UUID, as 32 hexadecimal
/// digits.
pub open spec fn request_id(text: Seq<char>) -> bool {
    &&& text.len() == 32
    &&& forall|i: int| 0 <= i < 32 ==> hex_digit(#[trigger] text[i])
    &&& text[12] == '4'
    &&& text[16] == '8' || text[16] == '9' || text[16] == 'a' || text[16] == 'b'
}

/// Calls `uuid::Uuid::new_v4` and writes the UUID by `uuid::Uuid::as_simple`. Which one
/// it is is left to chance. It is written as 32 hexadecimal digits in lower case, of
/// which two tell that it is a random UUID.
#[verifier::external_body]
pub(crate) fn new_uuid() -> (r: String)
    ensures
        request_id(r@),
{
    uuid::Uuid::new_v4().as_simple().to_string()
}

} // verus!
