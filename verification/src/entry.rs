//! Entry point: from what the caller found out about the context handle and
//! the store to the text it hands back, or to nothing.
//!
//! The caller owns the boundary itself: it tests the handle, runs the lookup
//! and turns a [`HeaderString`] into a raw string. Every decision on what is
//! handed back is made here.

use crate::codec::{brotli_decoded, decompressed_headers, BROTLI_BUFFER_SIZE};
use crate::fetch::{read_mime_headers, stored_headers, StoredHeaderRecord};
use crate::marshal::{
    header_text, headers_to_c_string, lemma_strip_nul_keeps_nul_free, strip_nul, utf8_lossy,
    HeaderString,
};
use vstd::prelude::*;
use vstd::utf8::*;

verus! {

/// What the caller learned before asking for the headers of one message.
#[derive(Debug)]
pub enum Lookup {
    /// The context handle was the null sentinel. The store was not asked.
    NullContext,
    /// The store has no row for the message identifier, or asking it failed.
    Missing,
    /// The row that the store holds for the message identifier.
    Row(StoredHeaderRecord),
}

impl Lookup {
    /// The row that was found, if any.
    pub open spec fn row(self) -> Option<StoredHeaderRecord> {
        match self {
            Lookup::Row(record) => Some(record),
            _ => None,
        }
    }
}

/// The text of a reply; `None` stands for the null sentinel.
pub open spec fn reply_text(reply: Option<HeaderString>) -> Option<Seq<char>> {
    match reply {
        Some(held) => Some(held@),
        None => None,
    }
}

/// The reply that is owed to a lookup: the marshalled text of the row's
/// headers where the row yields any, the null sentinel in every other case.
pub open spec fn expected_reply(lookup: Lookup) -> Option<Seq<char>> {
    match lookup {
        Lookup::NullContext => None,
        Lookup::Missing => None,
        Lookup::Row(record) => match stored_headers(Some(record)) {
            Some(headers) => Some(header_text(headers)),
            None => None,
        },
    }
}

/// Whether `reply` is what [`dc_get_msg_mime_headers`] may return for `lookup`.
pub open spec fn is_reply_to(lookup: Lookup, reply: Option<HeaderString>) -> bool {
    reply_text(reply) == expected_reply(lookup)
}

/// Retrieves the MIME headers of one message as text, or `None` for the null
/// sentinel.
///
/// The reply is `None` for a null context handle, for a message without a
/// row, for a row whose blob is empty, and for a compressed blob that the
/// decoder rejects or decodes to nothing. In every other case it is the
/// header bytes, decompressed where the row says so, with the NUL bytes
/// removed and the rest decoded lossily as UTF-8. A reply never holds a NUL.
pub fn dc_get_msg_mime_headers(lookup: Lookup) -> (reply: Option<HeaderString>)
    ensures
        reply_text(reply) == expected_reply(lookup),
        // A null handle and a message without a row give the null sentinel.
        lookup is NullContext ==> reply is None,
        lookup is Missing ==> reply is None,
        // So does an empty blob, compressed or not.
        lookup matches Lookup::Row(record) ==> (record.mime_headers@.len() == 0 ==> reply is None),
        // A blob that is not compressed is marshalled as it is stored.
        lookup matches Lookup::Row(record) ==> (record.mime_headers@.len() > 0
            && !record.compressed() ==> reply_text(reply) == Some(
            header_text(record.mime_headers@),
        )),
        // Without NUL bytes in it, that is the lossy decoding of the stored bytes.
        lookup matches Lookup::Row(record) ==> (record.mime_headers@.len() > 0
            && !record.compressed() && !record.mime_headers@.contains(0u8) ==> reply_text(reply)
            == Some(utf8_lossy(record.mime_headers@))),
        // A compressed blob that decodes to some bytes is marshalled from those.
        lookup matches Lookup::Row(record) ==> (record.compressed() ==> (decompressed_headers(
            record.mime_headers@,
        ) matches Some(plain) ==> reply_text(reply) == Some(header_text(plain)))),
        // A compressed blob that the decoder does not take gives the null sentinel.
        lookup matches Lookup::Row(record) ==> (record.compressed() && brotli_decoded(
            BROTLI_BUFFER_SIZE,
            record.mime_headers@,
        ) is None ==> reply is None),
        // Headers that are valid UTF-8 without their NUL bytes come back as the text they encode.
        stored_headers(lookup.row()) matches Some(headers) ==> (valid_utf8(strip_nul(headers))
            ==> reply_text(reply) == Some(decode_utf8(strip_nul(headers)))),
        // No reply holds a NUL.
        reply matches Some(held) ==> !held@.contains('\0'),
{
    let fetched = match lookup {
        Lookup::NullContext => {
            return None;
        },
        Lookup::Missing => None,
        Lookup::Row(record) => Some(record),
    };
    let headers = match read_mime_headers(fetched) {
        Some(headers) => headers,
        None => {
            return None;
        },
    };
    proof {
        if !headers@.contains(0u8) {
            lemma_strip_nul_keeps_nul_free(headers@);
        }
    }
    Some(headers_to_c_string(headers.as_slice()))
}

/// Asking twice gives the same text: two replies to one lookup are both the
/// null sentinel, or hold the same characters.
pub proof fn lemma_replies_agree(
    lookup: Lookup,
    first: Option<HeaderString>,
    second: Option<HeaderString>,
)
    requires
        is_reply_to(lookup, first),
        is_reply_to(lookup, second),
    ensures
        reply_text(first) == reply_text(second),
{
}

} // verus!
