use vstd::prelude::*;

use axum::http::header::InvalidHeaderValue;
use axum::http::HeaderValue;
use tower_http::request_id::RequestId;

verus! {

#[verifier::external_type_specification]
#[verifier::external_body]
pub struct ExHeaderValue(HeaderValue);

#[verifier::external_type_specification]
#[verifier::external_body]
pub struct ExInvalidHeaderValue(InvalidHeaderValue);

#[verifier::external_type_specification]
#[verifier::external_body]
pub struct ExRequestId(RequestId);

/// The lower-case hexadecimal digit of `n` (0 through 15).
pub open spec fn hex_lower(n: int) -> char {
    if n < 10 {
        (n + 48) as char
    } else {
        (n + 87) as char
    }
}

/// The `i`-th hexadecimal digit (of 32) of sixteen bytes, high half first.
pub open spec fn nibble(bytes: Seq<u8>, i: int) -> int {
    if i % 2 == 0 {
        (bytes[i / 2] / 16) as int
    } else {
        (bytes[i / 2] % 16) as int
    }
}

/// The hyphenated lower-case text of a UUID's sixteen bytes, as in
/// `67e55044-10b1-426f-9247-bb680e5fe0c8`.
pub open spec fn hyphenated(bytes: Seq<u8>) -> Seq<char> {
    let simple = Seq::new(32, |i: int| hex_lower(nibble(bytes, i)));
    simple.subrange(0, 8) + seq!['-'] + simple.subrange(8, 12) + seq!['-'] + simple.subrange(
        12,
        16,
    ) + seq!['-'] + simple.subrange(16, 20) + seq!['-'] + simple.subrange(20, 32)
}

/// The bytes a header value holds (a `HeaderValue` is a buffer of bytes).
pub uninterp spec fn header_value_bytes(value: HeaderValue) -> Seq<u8>;

/// The bytes of the header value a request id holds (a `RequestId` wraps
/// one `HeaderValue`).
pub uninterp spec fn request_id_bytes(id: RequestId) -> Seq<u8>;

/// The bytes of an ASCII text, one per character.
pub open spec fn ascii_bytes(text: Seq<char>) -> Seq<u8> {
    Seq::new(text.len(), |i: int| text[i] as u8)
}

/// Sixteen bytes of a random (version 4, RFC 4122 variant) UUID.
pub open spec fn uuid_v4_bytes(bytes: Seq<u8>) -> bool {
    &&& bytes.len() == 16
    &&& bytes[6] / 16 == 4
    &&& bytes[8] / 64 == 2
}

/// Whether `HeaderValue::from_str` takes a character: a byte of its UTF-8
/// encoding is refused when it is a control byte other than tab, or DEL.
pub open spec fn header_value_char(c: char) -> bool {
    c as u32 >= 128 || (c as u32 >= 32 && c as u32 != 127) || c == '\t'
}

/// `uuid::Uuid::new_v4`, read out as its sixteen bytes: random bytes, with
/// the version nibble set to 4 and the variant bits to `10`. Nothing else
/// is claimed of them.
#[verifier::external_body]
fn new_v4_bytes() -> (bytes: [u8; 16])
    ensures
        bytes@[6] / 16 == 4,
        bytes@[8] / 64 == 2,
{
    uuid::Uuid::new_v4().into_bytes()
}

/// `Display` of `uuid::Uuid` (from the given bytes): the hyphenated
/// lower-case hexadecimal text of the bytes.
#[verifier::external_body]
fn uuid_text(bytes: [u8; 16]) -> (text: String)
    ensures
        text@ == hyphenated(bytes@),
{
    uuid::Uuid::from_bytes(bytes).to_string()
}

/// `http::HeaderValue::from_str`: accepts the text exactly when every one of
/// its characters may stand in a header value, and then holds the UTF-8
/// bytes of the text.
#[verifier::external_body]
fn header_value_from_str(text: &str) -> (r: Result<HeaderValue, InvalidHeaderValue>)
    ensures
        r is Ok <==> forall|i: int| 0 <= i < text@.len() ==> header_value_char(#[trigger] text@[i]),
        r matches Ok(value) ==> header_value_bytes(value) == vstd::utf8::encode_utf8(text@),
{
    HeaderValue::from_str(text)
}

/// `tower_http::request_id::RequestId::new`: wraps a header value, which
/// keeps its bytes.
#[verifier::external_body]
fn request_id_new(value: HeaderValue) -> (id: RequestId)
    ensures
        request_id_bytes(id) == header_value_bytes(value),
{
    RequestId::new(value)
}

/// The request id whose value is the hyphenated text of the UUID with the
/// given sixteen bytes. The text of a UUID is always a valid header value,
/// so an id is always made.
pub fn request_id_from_uuid_bytes(bytes: [u8; 16]) -> (id: Option<RequestId>)
    ensures
        id is Some,
        request_id_bytes(id->Some_0) == ascii_bytes(hyphenated(bytes@)),
{
    let text = uuid_text(bytes);
    let ghost t = text@;
    assert forall|i: int| 0 <= i < t.len() implies header_value_char(#[trigger] t[i]) && '\0'
        <= t[i] <= '\u{7f}' by {
        assert(t.len() == 36);
    }
    let s = text.as_str();
    proof {
        vstd::utf8::is_ascii_chars_encode_utf8(t);
    }
    assert(vstd::utf8::encode_utf8(s@) =~= ascii_bytes(t));
    match header_value_from_str(s) {
        Ok(value) => Some(request_id_new(value)),
        Err(_) => None,
    }
}

/// The id given to each incoming request: the hyphenated text of a UUID
/// drawn at random for it (`uuid::Uuid::new_v4`), used as the value of the
/// `x-request-id` header.
pub fn make_request_id() -> (id: Option<RequestId>)
    ensures
        id is Some,
        exists|bytes: Seq<u8>|
            #[trigger] uuid_v4_bytes(bytes) && request_id_bytes(id->Some_0) == ascii_bytes(
                hyphenated(bytes),
            ),
{
    let bytes = new_v4_bytes();
    assert(uuid_v4_bytes(bytes@));
    request_id_from_uuid_bytes(bytes)
}

} // verus!
