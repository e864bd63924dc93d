use dockyard::error::Error;
use dockyard::file::{decode_and_write_file, decode_b64, encode_b64, text_of_bytes};

#[test]
fn decode_b64_gives_the_text() {
    assert_eq!(decode_b64("aGVsbG8="), Ok("hello".to_string()));
    assert_eq!(decode_b64("eyJuYW1lIjoiYyJ9"), Ok("{\"name\":\"c\"}".to_string()));
    assert_eq!(decode_b64(""), Ok(String::new()));
}

#[test]
fn decode_b64_refuses_what_is_no_base64() {
    assert_eq!(decode_b64("!!!"), Err(Error::InvalidEncoding));
    assert_eq!(decode_b64("a"), Err(Error::InvalidEncoding));
    assert_eq!(decode_b64("aGVs bG8="), Err(Error::InvalidEncoding));
}

#[test]
fn decode_b64_reads_the_bytes_as_utf8() {
    // The two bytes 0xC3 0xA9 are the one character U+00E9.
    assert_eq!(decode_b64("w6k="), Ok("\u{e9}".to_string()));
    assert_eq!(decode_b64("4oKsIPCfmIA="), Ok("\u{20ac} \u{1F600}".to_string()));
}

#[test]
fn decode_b64_refuses_bytes_that_are_no_utf8() {
    // 0xFF alone, and a lone continuation byte, are no UTF-8.
    assert_eq!(decode_b64("/w=="), Err(Error::InvalidEncoding));
    assert_eq!(decode_b64("gA=="), Err(Error::InvalidEncoding));
    // A sequence cut short.
    assert_eq!(decode_b64("ww=="), Err(Error::InvalidEncoding));
}

#[test]
fn decoding_gives_back_what_was_encoded() {
    let samples = ["", "hello", "VAR=\u{e9}t\u{e9}", "{\"label\":\"\u{65e5}\u{672c}\u{8a9e} \u{1F600}\"}", "\u{0}\u{7f}\u{80}\u{7ff}\u{800}\u{ffff}\u{10000}\u{10ffff}"];
    for sample in samples {
        assert_eq!(decode_b64(&encode_b64(sample)), Ok(sample.to_string()), "{:?}", sample);
    }
}

#[test]
fn text_of_bytes_reads_utf8() {
    assert_eq!(text_of_bytes(vec![104, 105]), Ok("hi".to_string()));
    assert_eq!(text_of_bytes(vec![0xc3, 0xa9]), Ok("\u{e9}".to_string()));
    assert_eq!(text_of_bytes(Vec::new()), Ok(String::new()));
    assert_eq!(text_of_bytes(vec![0xff, 0x00]), Err(Error::InvalidEncoding));
    // An overlong form and a surrogate are no UTF-8.
    assert_eq!(text_of_bytes(vec![0xc0, 0x80]), Err(Error::InvalidEncoding));
    assert_eq!(text_of_bytes(vec![0xed, 0xa0, 0x80]), Err(Error::InvalidEncoding));
}

#[test]
fn encode_b64_gives_padded_standard_base64() {
    assert_eq!(encode_b64("hello"), "aGVsbG8=");
    assert_eq!(encode_b64(""), "");
    assert_eq!(encode_b64("{\"name\":\"c\"}"), "eyJuYW1lIjoiYyJ9");
    assert_eq!(encode_b64("\u{e9}"), "w6k=");
}

#[test]
fn write_encoded_test() {
    let contents = "Q2x0b3BvV3lzN2FtUGxlU3RyaW5nMDEyMw";
    let file = decode_and_write_file(&encode_b64(contents), "/tmp/work/out").unwrap();
    assert_eq!(file.path, "/tmp/work/out");
    assert_eq!(file.contents, contents);
}

#[test]
fn nothing_is_written_for_bad_contents() {
    assert_eq!(decode_and_write_file("%%%", "/tmp/work/out"), Err(Error::InvalidEncoding));
}
