use delta_ffi::{dc_get_msg_mime_headers, Lookup, StoredHeaderRecord};
use std::io::Write;

fn row(mime_headers: &[u8], mime_compressed: Option<bool>) -> Lookup {
    Lookup::Row(StoredHeaderRecord { mime_headers: mime_headers.to_vec(), mime_compressed })
}

fn reply(lookup: Lookup) -> Option<String> {
    dc_get_msg_mime_headers(lookup).map(|held| held.into_string())
}

fn compress(plain: &[u8]) -> Vec<u8> {
    let mut writer = brotli::CompressorWriter::new(Vec::new(), 4096, 9, 20);
    writer.write_all(plain).unwrap();
    writer.into_inner()
}

#[test]
fn null_context_gives_null() {
    assert!(dc_get_msg_mime_headers(Lookup::NullContext).is_none());
}

#[test]
fn message_without_record_gives_null() {
    assert!(dc_get_msg_mime_headers(Lookup::Missing).is_none());
}

#[test]
fn plain_record_with_embedded_nul() {
    assert_eq!(reply(row(b"From: a@b\0c", Some(false))), Some(String::from("From: a@bc")));
}

#[test]
fn plain_record_without_flag() {
    assert_eq!(reply(row(b"From: a@b\0c", None)), Some(String::from("From: a@bc")));
    assert_eq!(reply(row(b"Subject: hi", None)), Some(String::from("Subject: hi")));
}

#[test]
fn plain_record_is_decoded_lossily() {
    let raw = [b'T', b'o', b':', b' ', 0xff, 0xfe, b'x'];
    assert_eq!(reply(row(&raw, Some(false))), Some(String::from_utf8_lossy(&raw).to_string()));
    assert_eq!(reply(row(&raw, Some(false))), Some(String::from("To: \u{fffd}\u{fffd}x")));
}

#[test]
fn compressed_record_of_subject_hi() {
    let stored = [11, 5, 128, 83, 117, 98, 106, 101, 99, 116, 58, 32, 104, 105, 3];
    assert_eq!(reply(row(&stored, Some(true))), Some(String::from("Subject: hi")));
    assert_eq!(reply(row(&compress(b"Subject: hi"), Some(true))), Some(String::from("Subject: hi")));
}

#[test]
fn compressed_record_is_stripped_and_decoded_lossily() {
    let plain = [b'a', 0, 0xff, b'b', 0, 0xc3, 0, 0xa9];
    assert_eq!(reply(row(&compress(&plain), Some(true))), Some(String::from("a\u{fffd}bé")));
}

#[test]
fn compressed_record_that_is_no_brotli_stream_gives_null() {
    assert_eq!(reply(row(b"Subject: hi", Some(true))), None);
    assert_eq!(reply(row(&[0x00, 0x01, 0x02, 0x03, 0xff], Some(true))), None);
}

#[test]
fn compressed_record_cut_short_gives_null() {
    let stored = compress(b"Received: from mail.example.org by mx.example.org; Mon, 1 Jan 2024 00:00:00 +0000");
    assert_eq!(reply(row(&stored[..stored.len() - 1], Some(true))), None);
    assert_eq!(reply(row(&stored[..stored.len() / 2], Some(true))), None);
}

#[test]
fn compressed_record_of_nothing_gives_null() {
    assert_eq!(reply(row(&compress(b""), Some(true))), None);
}

#[test]
fn empty_record_gives_null() {
    assert_eq!(reply(row(b"", Some(false))), None);
}

#[test]
fn empty_record_gives_null_whatever_the_flag() {
    assert_eq!(reply(row(b"", None)), None);
    assert_eq!(reply(row(b"", Some(true))), None);
}

#[test]
fn record_of_only_nul_bytes_gives_empty_text_not_null() {
    assert_eq!(reply(row(&[0, 0, 0], Some(false))), Some(String::new()));
}

#[test]
fn asking_twice_gives_the_same_text() {
    let stored = compress(b"Subject: twice\r\nX-Odd: \xff\0\r\n");
    let first = reply(row(&stored, Some(true)));
    let second = reply(row(&stored, Some(true)));
    assert!(first.is_some());
    assert_eq!(first, second);
    assert_eq!(reply(row(b"Subject: twice", None)), reply(row(b"Subject: twice", None)));
    assert_eq!(reply(Lookup::Missing), reply(Lookup::Missing));
}

#[test]
fn reply_never_holds_a_nul() {
    let text = reply(row(b"\0a\0b\0", None)).unwrap();
    assert_eq!(text, "ab");
    assert!(!text.as_bytes().contains(&0));
}
