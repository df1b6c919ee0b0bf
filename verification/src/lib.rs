//! Retrieval of a stored message's MIME header block as NUL-free text.
//!
//! A message store keeps each message's header block as a blob that may be
//! Brotli-compressed. This library decides what is handed back for one
//! looked-up row: it decompresses where needed ([`codec`]), picks the raw
//! header bytes ([`fetch`]), marshals them into text that can end at a NUL
//! terminator ([`marshal`]), and ties the three together ([`entry`]).

pub mod codec;
pub mod entry;
pub mod fetch;
pub mod marshal;

pub use codec::decompress_headers;
pub use entry::{dc_get_msg_mime_headers, Lookup};
pub use fetch::{read_mime_headers, StoredHeaderRecord};
pub use marshal::{headers_to_c_string, HeaderString};
