//! From a fetched body to the text of an event.
//!
//! The source hands a body over either verbatim or, for binary content, in
//! the standard base64 alphabet with padding. An encoded body is decoded to
//! bytes and the bytes are read as UTF-8, each invalid sequence replaced by
//! U+FFFD, so that only a malformed encoding can fail.

use vstd::prelude::*;
use vstd::utf8::{decode_utf8, valid_utf8};
use crate::event::Error;

verus! {

/// What the source answers when asked for the body of a response.
#[derive(Debug)]
pub struct FetchedBody {
    pub body: String,
    pub base64_encoded: bool,
}

/// What the decoder makes of `text`: the bytes that it encodes in the
/// standard base64 alphabet with canonical padding, or the decoder's error
/// where `text` is no such encoding.
pub uninterp spec fn standard_base64(text: Seq<char>) -> Result<Seq<u8>, base64::DecodeError>;

/// The text that `bytes` hold when read as UTF-8 with every invalid
/// sequence replaced by U+FFFD.
pub uninterp spec fn utf8_lossy(bytes: Seq<u8>) -> Seq<char>;

/// Calls `Engine::decode` of `base64::engine::general_purpose::STANDARD`.
/// The decoder reads nothing but its input, so its outcome, bytes or error,
/// is a function of the text; nothing more is claimed of it.
#[verifier::external_body]
fn decode_standard(text: &str) -> (decoded: Result<Vec<u8>, base64::DecodeError>)
    ensures
        match decoded {
            Ok(bytes) => standard_base64(text@) == Ok::<Seq<u8>, base64::DecodeError>(bytes@),
            Err(e) => standard_base64(text@) == Err::<Seq<u8>, base64::DecodeError>(e),
        },
{
    base64::Engine::decode(&base64::engine::general_purpose::STANDARD, text)
}

/// Calls `String::from_utf8_lossy`, which std documents to return the text
/// unchanged where the bytes are valid UTF-8 and otherwise to replace each
/// invalid sequence by U+FFFD; it never fails.
#[verifier::external_body]
fn lossy_text(bytes: &[u8]) -> (text: String)
    ensures
        text@ == utf8_lossy(bytes@),
        valid_utf8(bytes@) ==> text@ == decode_utf8(bytes@),
{
    String::from_utf8_lossy(bytes).into_owned()
}

/// The text of a body as the source handed it over, or the decoder's error
/// where it is flagged as encoded and is no valid encoding.
pub open spec fn body_text(body: Seq<char>, base64_encoded: bool) -> Result<
    Seq<char>,
    base64::DecodeError,
> {
    if base64_encoded {
        match standard_base64(body) {
            Ok(bytes) => Ok(utf8_lossy(bytes)),
            Err(e) => Err(e),
        }
    } else {
        Ok(body)
    }
}

/// The text of an encoded body, given what the decoder made of it: the
/// decoded bytes read leniently as UTF-8, or the decoder's error.
pub fn text_of_decoded(
    decoded: Result<Vec<u8>, base64::DecodeError>,
) -> (text: Result<String, Error>)
    ensures
        match decoded {
            Ok(bytes) => text is Ok && text->Ok_0@ == utf8_lossy(bytes@) && (valid_utf8(bytes@)
                ==> text->Ok_0@ == decode_utf8(bytes@)),
            Err(e) => text == Err::<String, Error>(Error::Base64Decode(e)),
        },
{
    match decoded {
        Ok(bytes) => Ok(lossy_text(bytes.as_slice())),
        Err(e) => Err(Error::Base64Decode(e)),
    }
}

/// The text of a fetched body: verbatim where it is not flagged as encoded,
/// decoded where it is. Fails exactly where a flagged body is no valid
/// encoding, with the decoder's error in `Error::Base64Decode`.
pub fn decode_body(fetched: FetchedBody) -> (text: Result<String, Error>)
    ensures
        match body_text(fetched.body@, fetched.base64_encoded) {
            Ok(t) => text is Ok && text->Ok_0@ == t,
            Err(e) => text == Err::<String, Error>(Error::Base64Decode(e)),
        },
        !fetched.base64_encoded ==> text is Ok && text->Ok_0@ == fetched.body@,
{
    if fetched.base64_encoded {
        text_of_decoded(decode_standard(fetched.body.as_str()))
    } else {
        Ok(fetched.body)
    }
}

} // verus!
