use axum::http::header::{HeaderMap, HeaderValue};
use bytes::Bytes;
use proxy_response::encoding::{
    content_encoding, decode_buffered_response_body, decode_noting_trouble, decompress_body,
    encoding_name, knows_encoding, replace_decoded_body, EncodingTrouble,
};
use std::io::Write;

const PLAIN: &[u8] = b"hello, hello, hello, hello";

fn gzip(plain: &[u8]) -> Vec<u8> {
    let mut encoder = flate2::write::GzEncoder::new(Vec::new(), flate2::Compression::default());
    encoder.write_all(plain).expect("compress");
    encoder.finish().expect("compress")
}

fn deflate(plain: &[u8]) -> Vec<u8> {
    let mut encoder =
        flate2::write::DeflateEncoder::new(Vec::new(), flate2::Compression::default());
    encoder.write_all(plain).expect("compress");
    encoder.finish().expect("compress")
}

fn brotli_compressed(plain: &[u8]) -> Vec<u8> {
    let mut compressed = Vec::new();
    let params = brotli::enc::BrotliEncoderParams::default();
    let mut source = plain;
    brotli::BrotliCompress(&mut source, &mut compressed, &params).expect("compress");
    compressed
}

fn described(encoding: &'static str) -> HeaderMap {
    let mut headers = HeaderMap::new();
    headers.insert("content-encoding", HeaderValue::from_static(encoding));
    headers.insert("content-length", HeaderValue::from_static("5"));
    headers.insert("transfer-encoding", HeaderValue::from_static("chunked"));
    headers.insert("x-kept", HeaderValue::from_static("yes"));
    headers
}

#[test]
fn each_encoding_is_decoded() {
    assert_eq!(decompress_body("gzip", &gzip(PLAIN)).expect("gzip"), PLAIN);
    assert_eq!(decompress_body("x-gzip", &gzip(PLAIN)).expect("gzip"), PLAIN);
    assert_eq!(
        decompress_body("deflate", &deflate(PLAIN)).expect("deflate"),
        PLAIN
    );
    assert_eq!(
        decompress_body("br", &brotli_compressed(PLAIN)).expect("brotli"),
        PLAIN
    );
    assert_eq!(decompress_body("zstd", PLAIN).expect("as it is"), PLAIN);
    assert_eq!(decompress_body("GZIP", PLAIN).expect("as it is"), PLAIN);
}

#[test]
fn known_encodings() {
    for encoding in ["gzip", "x-gzip", "deflate", "br"] {
        assert!(knows_encoding(encoding));
    }
    for encoding in ["", "identity", "GZIP", "zstd", "gzip, br"] {
        assert!(!knows_encoding(encoding));
    }
}

#[test]
fn damaged_bodies_are_not_decoded() {
    assert!(decompress_body("gzip", PLAIN).is_err());
    assert!(decompress_body("gzip", b"").is_err());
    assert!(decompress_body("br", b"\xff\xff\xff\xff").is_err());
    assert!(decompress_body("deflate", b"\xff\xff\xff\xff").is_err());
    let mut cut = gzip(PLAIN);
    cut.truncate(cut.len() - 1);
    assert!(decompress_body("x-gzip", &cut).is_err());
}

#[test]
fn error_of_the_decoder_is_handed_on() {
    let text = |encoding: &str, body: &[u8]| {
        decompress_body(encoding, body).expect_err("a damaged body").to_string()
    };
    assert_eq!(text("gzip", PLAIN), "invalid gzip header");
    assert_eq!(text("deflate", b"\xff\xff\xff\xff"), "corrupt deflate stream");
    assert_eq!(text("br", b""), "Unexpected EOF");
    let mut altered = gzip(PLAIN);
    let crc = altered.len() - 8;
    altered[crc] ^= 1;
    assert_eq!(
        text("x-gzip", &altered),
        "corrupt gzip stream does not have a matching checksum"
    );
}

#[test]
fn trouble_with_an_encoding_is_told() {
    let trouble = |encoding: &'static str, body: Vec<u8>| {
        decode_noting_trouble(&mut described(encoding), Bytes::from(body)).1
    };
    assert!(trouble("identity", PLAIN.to_vec()).is_none());
    assert!(trouble("gzip", gzip(PLAIN)).is_none());
    match trouble(" ZSTD", PLAIN.to_vec()) {
        Some(EncodingTrouble::Unknown(encoding)) => assert_eq!(encoding, "zstd"),
        other => panic!("the encoding is unknown, got {other:?}"),
    }
    match trouble("GZip", PLAIN.to_vec()) {
        Some(EncodingTrouble::Damaged(encoding, message)) => {
            assert_eq!(encoding, "gzip");
            assert_eq!(message, "invalid gzip header");
        }
        other => panic!("the body is damaged, got {other:?}"),
    }
}

#[test]
fn encoding_names_are_trimmed_and_in_lower_case() {
    assert_eq!(encoding_name("gzip").as_deref(), Some("gzip"));
    assert_eq!(encoding_name(" \tGZip\t ").as_deref(), Some("gzip"));
    assert_eq!(encoding_name("gzip, br").as_deref(), Some("gzip, br"));
    assert_eq!(encoding_name("identity"), None);
    assert_eq!(encoding_name(" IDENTITY "), None);
    assert_eq!(encoding_name(""), None);
    assert_eq!(encoding_name(" \t "), None);
}

#[test]
fn first_readable_value_names_the_encoding() {
    assert_eq!(content_encoding(&HeaderMap::new()), None);
    let mut headers = HeaderMap::new();
    headers.append("content-encoding", HeaderValue::from_static(" Br "));
    headers.append("content-encoding", HeaderValue::from_static("gzip"));
    assert_eq!(content_encoding(&headers).as_deref(), Some("br"));
    let mut opaque = HeaderMap::new();
    opaque.append(
        "content-encoding",
        HeaderValue::from_bytes(b"gzip\xff").expect("an opaque value"),
    );
    opaque.append("content-encoding", HeaderValue::from_static("gzip"));
    assert_eq!(content_encoding(&opaque), None);
}

#[test]
fn decoded_messages_lose_their_entity_fields() {
    let cases: Vec<(&'static str, Vec<u8>)> = vec![
        ("X-GZIP", gzip(PLAIN)),
        ("deflate", deflate(PLAIN)),
        (" br ", brotli_compressed(PLAIN)),
        ("compress", PLAIN.to_vec()),
    ];
    for (encoding, raw) in cases {
        let mut headers = described(encoding);
        let body = decode_buffered_response_body(&mut headers, Bytes::from(raw));
        assert_eq!(&body[..], PLAIN);
        assert_eq!(headers.len(), 1);
        assert!(headers.contains_key("x-kept"));

        let once = headers.clone();
        let again = decode_buffered_response_body(&mut headers, body.clone());
        assert_eq!(again, body);
        assert_eq!(headers, once);
    }
}

#[test]
fn messages_that_cannot_be_decoded_stay() {
    for encoding in ["identity", "gzip", "br"] {
        let mut headers = described(encoding);
        let body = decode_buffered_response_body(&mut headers, Bytes::from_static(b"\xff\xffplain"));
        assert_eq!(body, Bytes::from_static(b"\xff\xffplain"));
        assert_eq!(headers, described(encoding));
    }
}

#[test]
fn decoded_body_replaces_the_raw_one() {
    let mut headers = described("gzip");
    let body = replace_decoded_body(&mut headers, Bytes::from_static(b"raw"), Some(vec![1, 2]));
    assert_eq!(&body[..], &[1, 2]);
    assert_eq!(headers.len(), 1);

    let mut kept = described("gzip");
    let raw = replace_decoded_body(&mut kept, Bytes::from_static(b"raw"), None);
    assert_eq!(raw, Bytes::from_static(b"raw"));
    assert_eq!(kept, described("gzip"));
}
