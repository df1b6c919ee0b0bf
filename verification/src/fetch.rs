//! Header fetcher: decides what one looked-up row of the message store
//! yields as raw header bytes.
//!
//! The lookup itself is the caller's: it hands over the row it found, or
//! `None` where there was no row or the lookup failed. The two are not told
//! apart, and neither are the other ways of ending up without headers.

use crate::codec::{bytes_of, decompress_headers, decompressed_headers};
use vstd::prelude::*;

verus! {

/// One row of the message store as this library reads it: the stored header
/// blob and the flag that says whether the blob is Brotli-compressed.
#[derive(Debug)]
pub struct StoredHeaderRecord {
    /// The header block as stored, compressed or not.
    pub mime_headers: Vec<u8>,
    /// The compression flag. A row may lack it.
    pub mime_compressed: Option<bool>,
}

impl StoredHeaderRecord {
    /// Whether the blob is compressed. A missing flag means that it is not.
    pub open spec fn compressed(&self) -> bool {
        self.mime_compressed == Some(true)
    }

    /// Reads the compression flag, taking a missing one as `false`.
    pub fn is_compressed(&self) -> (flag: bool)
        ensures
            flag == self.compressed(),
    {
        self.mime_compressed.unwrap_or(false)
    }
}

/// The raw header bytes that a looked-up row yields.
///
/// `None` for a lookup that found nothing and for a row with an empty blob.
/// A blob that is not compressed is the headers. A compressed one is decoded,
/// and yields what [`decompressed_headers`] says.
pub open spec fn stored_headers(fetched: Option<StoredHeaderRecord>) -> Option<Seq<u8>> {
    match fetched {
        None => None,
        Some(record) => if record.mime_headers@.len() == 0 {
            None
        } else if !record.compressed() {
            Some(record.mime_headers@)
        } else {
            decompressed_headers(record.mime_headers@)
        },
    }
}

/// Turns the outcome of the keyed lookup into raw header bytes, decompressed
/// where the row says they are compressed.
///
/// Whatever is returned is not empty: an empty blob and an empty decoder
/// output both count as no headers.
pub fn read_mime_headers(fetched: Option<StoredHeaderRecord>) -> (headers: Option<Vec<u8>>)
    ensures
        bytes_of(headers) == stored_headers(fetched),
        fetched is None ==> headers is None,
        headers matches Some(bytes) ==> bytes@.len() > 0,
{
    let record = match fetched {
        Some(record) => record,
        None => {
            return None;
        },
    };
    let compressed = record.is_compressed();
    let headers = record.mime_headers;
    if headers.is_empty() {
        return None;
    }
    if !compressed {
        return Some(headers);
    }
    decompress_headers(headers.as_slice())
}

} // verus!
