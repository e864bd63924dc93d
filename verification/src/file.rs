//! The contents of the files that a helper writes and reads: base64 text and
//! what it stands for.

use vstd::prelude::*;
use vstd::utf8::{
    decode_utf8, encode_utf8, encode_utf8_decode_utf8, encode_utf8_valid_utf8, valid_utf8,
};
use crate::error::Error;

verus! {

/// The error of `base64::decode`.
#[verifier::external_type_specification]
#[verifier::external_body]
pub struct ExDecodeError(base64::DecodeError);

/// The bytes that `base64::decode` gives for a text in the standard
/// alphabet, where it accepts the text. Of a text that `base64::encode`
/// made it gives the bytes that were encoded: `base64_encode` says so.
pub uninterp spec fn base64_decoding(contents: Seq<char>) -> Option<Seq<u8>>;

/// The text that `base64::encode` gives for the UTF-8 bytes of a text, in
/// the standard alphabet with padding.
pub uninterp spec fn base64_encoding(contents: Seq<char>) -> Seq<char>;

/// `base64::decode` on a text: the bytes that the text encodes, or the
/// crate's error where the text is no base64.
#[verifier::external_body]
fn base64_decode(contents: &str) -> (bytes: Result<Vec<u8>, base64::DecodeError>)
    ensures
        match bytes {
            Ok(b) => base64_decoding(contents@) == Some(b@),
            Err(_) => base64_decoding(contents@) is None,
        },
{
    base64::decode(contents)
}

/// `base64::encode` on the bytes of a text: the text in base64, which
/// `base64::decode` turns back into those bytes.
#[verifier::external_body]
fn base64_encode(contents: &str) -> (encoded: String)
    ensures
        encoded@ == base64_encoding(contents@),
        base64_decoding(encoded@) == Some(encode_utf8(contents@)),
{
    base64::encode(contents)
}

/// The error of `String::from_utf8`.
#[verifier::external_type_specification]
#[verifier::external_body]
pub struct ExFromUtf8Error(std::string::FromUtf8Error);

/// `String::from_utf8`: the text that the bytes encode in UTF-8, or an
/// error where they are no UTF-8.
pub assume_specification[ String::from_utf8 ](vec: Vec<u8>) -> (text: Result<
    String,
    std::string::FromUtf8Error,
>)
    ensures
        match text {
            Ok(t) => valid_utf8(vec@) && t@ == decode_utf8(vec@),
            Err(_) => !valid_utf8(vec@),
        },
;

/// The text that bytes encode in UTF-8, where they encode one.
pub open spec fn utf8_text(bytes: Seq<u8>) -> Option<Seq<char>> {
    if valid_utf8(bytes) {
        Some(decode_utf8(bytes))
    } else {
        None
    }
}

/// The text that encoded contents stand for: the UTF-8 reading of the
/// bytes they decode to, where they are base64 and the bytes are UTF-8.
pub open spec fn decoded_text(contents: Seq<char>) -> Option<Seq<char>> {
    match base64_decoding(contents) {
        Some(bytes) => utf8_text(bytes),
        None => None,
    }
}

/// Reads bytes as UTF-8 text.
pub fn text_of_bytes(bytes: Vec<u8>) -> (text: Result<String, Error>)
    ensures
        match text {
            Ok(t) => utf8_text(bytes@) == Some(t@),
            Err(e) => e == Error::InvalidEncoding && utf8_text(bytes@) is None,
        },
{
    match String::from_utf8(bytes) {
        Ok(text) => Ok(text),
        Err(_) => Err(Error::InvalidEncoding),
    }
}

/// Decodes base64 contents into the text they stand for.
pub fn decode_b64(contents: &str) -> (text: Result<String, Error>)
    ensures
        match text {
            Ok(t) => decoded_text(contents@) == Some(t@),
            Err(e) => e == Error::InvalidEncoding && decoded_text(contents@) is None,
        },
{
    match base64_decode(contents) {
        Ok(bytes) => text_of_bytes(bytes),
        Err(_) => Err(Error::InvalidEncoding),
    }
}

/// Encodes a text as base64. Decoding gives the text back.
pub fn encode_b64(contents: &str) -> (encoded: String)
    ensures
        encoded@ == base64_encoding(contents@),
        decoded_text(encoded@) == Some(contents@),
{
    broadcast use {encode_utf8_valid_utf8, encode_utf8_decode_utf8};

    base64_encode(contents)
}

/// A file to be written.
#[derive(Clone, Debug, PartialEq, Eq)]
pub struct FileWrite {
    pub path: String,
    pub contents: String,
}

/// The file that holds, at `output`, what the base64 `contents` stand for.
/// Nothing is to be written where the contents are no base64 of a text.
pub fn decode_and_write_file(contents: &str, output: &str) -> (file: Result<FileWrite, Error>)
    ensures
        match file {
            Ok(f) => f.path@ == output@ && decoded_text(contents@) == Some(f.contents@),
            Err(e) => e == Error::InvalidEncoding && decoded_text(contents@) is None,
        },
{
    match decode_b64(contents) {
        Ok(text) => Ok(FileWrite { path: String::from_str(output), contents: text }),
        Err(e) => Err(e),
    }
}

} // verus!
