use vstd::prelude::*;
use vstd::string::*;
use vstd::utf8::*;

verus! {

/// Why bytes are no text. It is carried, never read.
#[verifier::external_type_specification]
#[verifier::external_body]
pub struct ExUtf8Error(core::str::Utf8Error);

/// `core::str::from_utf8` succeeds exactly on the byte strings that are valid UTF-8, and
/// the text it gives has those bytes.
pub assume_specification[ core::str::from_utf8 ](v: &[u8]) -> (text: Result<
    &str,
    core::str::Utf8Error,
>)
    ensures
        text is Ok <==> valid_utf8(v@),
        text matches Ok(s) ==> s.spec_bytes() == v@,
;

/// Whether `text` ends with `letter`.
pub open spec fn ends_with(text: Seq<char>, letter: char) -> bool {
    text.len() > 0 && text.last() == letter
}

/// Whether `text` ends with `letter`.
pub fn text_ends_with(text: &str, letter: char) -> (found: bool)
    ensures
        found == ends_with(text@, letter),
{
    let length = text.unicode_len();
    length > 0 && text.get_char(length - 1) == letter
}

/// The text that valid UTF-8 bytes stand for.
pub fn text_of(bytes: &[u8]) -> (text: Option<&str>)
    ensures
        text is Some <==> valid_utf8(bytes@),
        text matches Some(s) ==> s@ == decode_utf8(bytes@),
{
    match core::str::from_utf8(bytes) {
        Ok(s) => {
            proof {
                encode_utf8_decode_utf8(s@);
            }
            Some(s)
        },
        Err(_) => None,
    }
}

/// Bytes that are ASCII characters, one for one, are valid UTF-8 and stand for those
/// characters.
pub proof fn lemma_ascii_bytes_are_text(bytes: Seq<u8>, chars: Seq<char>)
    requires
        is_ascii_chars(chars),
        bytes.len() == chars.len(),
        forall|i: int| 0 <= i < chars.len() ==> #[trigger] bytes[i] == chars[i] as u8,
    ensures
        valid_utf8(bytes),
        decode_utf8(bytes) == chars,
{
    is_ascii_chars_encode_utf8(chars);
    assert(bytes =~= encode_utf8(chars));
    encode_utf8_valid_utf8(chars);
    encode_utf8_decode_utf8(chars);
}

} // verus!
