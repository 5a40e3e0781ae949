//! Encodings that the library takes from outside crates: standard Base64 and
//! URL percent-encoding.
use vstd::prelude::*;
use vstd::utf8::encode_utf8;
use base64::Engine;

verus! {

/// What `base64::engine::general_purpose::STANDARD.encode` gives for some bytes
/// (padded standard alphabet).
pub uninterp spec fn base64_encode_spec(bytes: Seq<u8>) -> Seq<char>;

/// What `base64::engine::general_purpose::STANDARD.decode` gives for a text:
/// the decoded bytes, or `None` where the text is not valid padded Base64.
pub uninterp spec fn base64_decode_spec(text: Seq<char>) -> Option<Seq<u8>>;

/// The bytes that percent-encoding keeps as they are: ASCII digits, letters
/// and `-`, `.`, `_`, `~`.
pub open spec fn url_unreserved(b: u8) -> bool {
    (0x30 <= b <= 0x39) || (0x41 <= b <= 0x5A) || (0x61 <= b <= 0x7A) || b == 0x2D || b == 0x2E || b == 0x5F
        || b == 0x7E
}

/// An upper-case hexadecimal digit, for a value below 16.
pub open spec fn upper_hex_digit(d: nat) -> char {
    if d < 10 {
        (d + 48) as char
    } else {
        (d + 55) as char
    }
}

/// The percent-encoding of one byte: the byte itself where it is kept, else
/// `%` and its two upper-case hexadecimal digits.
pub open spec fn url_encode_byte(b: u8) -> Seq<char> {
    if url_unreserved(b) {
        seq![b as char]
    } else {
        seq!['%', upper_hex_digit(b as nat / 16), upper_hex_digit(b as nat % 16)]
    }
}

/// The percent-encoding of bytes, byte by byte.
pub open spec fn url_encode_bytes(bytes: Seq<u8>) -> Seq<char>
    decreases bytes.len(),
{
    if bytes.len() == 0 {
        seq![]
    } else {
        url_encode_bytes(bytes.drop_last()) + url_encode_byte(bytes.last())
    }
}

/// The percent-encoding of a text: that of its UTF-8 bytes.
pub open spec fn url_encode_spec(text: Seq<char>) -> Seq<char> {
    url_encode_bytes(encode_utf8(text))
}

/// A percent-encoded text holds no `&`.
pub proof fn lemma_url_encode_no_amp(text: Seq<char>)
    ensures
        forall|i: int| 0 <= i < url_encode_spec(text).len() ==> url_encode_spec(text)[i] != '&',
{
    lemma_url_encode_bytes_no_amp(encode_utf8(text));
}

proof fn lemma_url_encode_bytes_no_amp(bytes: Seq<u8>)
    ensures
        forall|i: int| 0 <= i < url_encode_bytes(bytes).len() ==> url_encode_bytes(bytes)[i] != '&',
    decreases bytes.len(),
{
    if bytes.len() > 0 {
        lemma_url_encode_bytes_no_amp(bytes.drop_last());
        let a = url_encode_bytes(bytes.drop_last());
        let b = url_encode_byte(bytes.last());
        let x = bytes.last();
        assert forall|j: int| 0 <= j < b.len() implies b[j] != '&' by {
            if url_unreserved(x) {
                assert(b[j] == x as char);
                assert((x as char) as u32 == x as u32);
            } else {
                let hi = x as nat / 16;
                let lo = x as nat % 16;
                assert(hi < 16 && lo < 16);
                assert((hi + 48) as char as u32 == hi + 48);
                assert((hi + 55) as char as u32 == hi + 55);
                assert((lo + 48) as char as u32 == lo + 48);
                assert((lo + 55) as char as u32 == lo + 55);
            }
        }
        assert forall|i: int| 0 <= i < (a + b).len() implies (a + b)[i] != '&' by {
            if i < a.len() {
                assert((a + b)[i] == a[i]);
            } else {
                assert((a + b)[i] == b[i - a.len()]);
            }
        }
    }
}

#[verifier::external_type_specification]
#[verifier::external_body]
pub struct ExDecodeError(base64::DecodeError);

/// Standard Base64 encoding through `STANDARD.encode`; the result is the named
/// encoding of the bytes.
#[verifier::external_body]
pub(crate) fn base64_encode(bytes: &[u8]) -> (r: String)
    ensures
        r@ == base64_encode_spec(bytes@),
{
    base64::engine::general_purpose::STANDARD.encode(bytes)
}

/// Standard Base64 decoding through `STANDARD.decode`. The result is the named
/// decoding of the text; and a text that `STANDARD.encode` produced from some
/// bytes decodes to those bytes, as the crate documents of its engines.
#[verifier::external_body]
pub(crate) fn base64_decode(text: &str) -> (r: Result<Vec<u8>, base64::DecodeError>)
    ensures
        r is Ok <==> base64_decode_spec(text@) is Some,
        r matches Ok(v) ==> base64_decode_spec(text@) == Some(v@),
        (forall|b: Seq<u8>| text@ == #[trigger] base64_encode_spec(b) ==> r is Ok),
        r is Ok ==> (forall|b: Seq<u8>| text@ == #[trigger] base64_encode_spec(b) ==> base64_decode_spec(text@) == Some(b)),
{
    base64::engine::general_purpose::STANDARD.decode(text)
}

/// Percent-encoding through `urlencoding::encode`: the crate goes through the
/// UTF-8 bytes of the text, keeps ASCII letters, digits and `-_.~`, and writes
/// every other byte as `%` and two upper-case hexadecimal digits.
#[verifier::external_body]
pub(crate) fn url_encode(text: &str) -> (r: String)
    ensures
        r@ == url_encode_spec(text@),
{
    urlencoding::encode(text).into_owned()
}

} // verus!
