//! The text of what the backend prints.

use crate::error::AppError;
use crate::text::{chars_to_string, str_chars, trim, trim_chars};
use vstd::prelude::*;
use vstd::slice::slice_to_vec;
use vstd::utf8::{decode_utf8, valid_utf8};

verus! {

/// `String::from_utf8`: the text that the bytes encode, or an error where
/// they are no UTF-8.
#[verifier::external_body]
fn string_from_utf8(bytes: Vec<u8>) -> (r: Result<String, std::string::FromUtf8Error>)
    ensures
        match r {
            Ok(s) => valid_utf8(bytes@) && s@ == decode_utf8(bytes@),
            Err(_) => !valid_utf8(bytes@),
        },
{
    String::from_utf8(bytes)
}

/// What `chardetng` and `encoding_rs` make of bytes that are no UTF-8: the
/// text in the encoding that the detector guesses once it has seen all the
/// bytes, and whether that decoding met malformed sequences.
pub uninterp spec fn detected_text(bytes: Seq<u8>) -> (Seq<char>, bool);

/// Feeds all of `bytes` to a fresh `chardetng::EncodingDetector` that may
/// guess any encoding, takes its guess without a hint of the domain, and
/// decodes `bytes` with `Encoding::decode`. Returns the text and whether
/// malformed sequences were replaced. The result is a function of `bytes`
/// alone.
#[verifier::external_body]
fn detect_and_decode(bytes: &[u8]) -> (r: (String, bool))
    ensures
        (r.0@, r.1) == detected_text(bytes@),
{
    let mut detector = chardetng::EncodingDetector::new(chardetng::Iso2022JpDetection::Allow);
    detector.feed(bytes, true);
    let (text, _, had_errors) = detector.guess(None, chardetng::Utf8Detection::Allow).decode(bytes);
    (text.into_owned(), had_errors)
}

/// What follows a guess at the encoding: text that decoded cleanly is
/// taken, without the white space around it; text that did not is refused
/// with the failure that UTF-8 decoding had ended in.
pub fn accept_detected(
    failure: std::string::FromUtf8Error,
    text: &str,
    had_errors: bool,
) -> (r: Result<String, AppError>)
    ensures
        match r {
            Ok(s) => !had_errors && s@ == trim(text@),
            Err(e) => had_errors && e == AppError::Utf8(failure),
        },
{
    if had_errors {
        Err(AppError::Utf8(failure))
    } else {
        Ok(chars_to_string(&trim_chars(&str_chars(text))))
    }
}

/// The text of captured output, without the white space around it. UTF-8
/// is tried first; output that is no UTF-8 is decoded in the encoding that
/// it seems to be in, and refused where even that fails.
pub fn auto_decode(input: &[u8]) -> (r: Result<String, AppError>)
    ensures
        match r {
            Ok(s) => s@ == trim(
                if valid_utf8(input@) {
                    decode_utf8(input@)
                } else {
                    detected_text(input@).0
                },
            ) && (valid_utf8(input@) || !detected_text(input@).1),
            Err(e) => !valid_utf8(input@) && detected_text(input@).1 && e is Utf8,
        },
{
    match string_from_utf8(slice_to_vec(input)) {
        Ok(s) => Ok(chars_to_string(&trim_chars(&str_chars(s.as_str())))),
        Err(failure) => {
            let (text, had_errors) = detect_and_decode(input);
            accept_detected(failure, text.as_str(), had_errors)
        },
    }
}

} // verus!
