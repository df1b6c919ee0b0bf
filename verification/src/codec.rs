//! Codec adapter: recovers header bytes from a stored Brotli blob by driving
//! the streaming decoder of the `brotli` crate.
//!
//! The decoder itself is not verified. Each call into it goes through one
//! small trusted function below; what a call returns is given a name, and
//! [`decompress_headers`] is proved against those names.

use brotli::DecompressorWriter;
use std::io::Write;
use vstd::prelude::*;

verus! {

/// Size in bytes of the staging buffer the decoder is opened with. A tuning
/// value: it bounds how much decoded output is moved to the sink at a time.
pub const BROTLI_BUFFER_SIZE: usize = 4096;

/// A Brotli decoding stream that writes what it decodes into a byte vector:
/// a `brotli::DecompressorWriter<Vec<u8>>`.
///
/// Trusted: the verifier sees nothing inside a value of this type. The two
/// names [`stream_buffer_size`] and [`stream_fed`] stand for what the
/// contracts in this module need to know of one.
#[verifier::external_body]
pub struct BrotliStream {
    writer: DecompressorWriter<Vec<u8>>,
}

/// The staging-buffer size that a stream was opened with.
pub uninterp spec fn stream_buffer_size(stream: BrotliStream) -> usize;

/// The bytes that a stream has been handed to decode since it was opened.
pub uninterp spec fn stream_fed(stream: BrotliStream) -> Seq<u8>;

/// Whether `write_all` returns `Ok` when `bytes` are written into a stream
/// that was opened with `buffer_size` and has been fed nothing before.
pub uninterp spec fn brotli_write_all_ok(buffer_size: usize, bytes: Seq<u8>) -> bool;

/// Whether `flush` returns `Ok` on a stream that was opened with
/// `buffer_size` and has been fed `fed`.
pub uninterp spec fn brotli_flush_ok(buffer_size: usize, fed: Seq<u8>) -> bool;

/// What `into_inner` hands back for a stream that was opened with
/// `buffer_size` and has been fed `fed`: the bytes in the sink where it
/// returns `Ok`, `None` where it returns `Err`.
pub uninterp spec fn brotli_into_inner(buffer_size: usize, fed: Seq<u8>) -> Option<Seq<u8>>;

/// The bytes of an optional byte vector.
pub open spec fn bytes_of(bytes: Option<Vec<u8>>) -> Option<Seq<u8>> {
    match bytes {
        Some(b) => Some(b@),
        None => None,
    }
}

/// Trusted wrapper of `brotli::DecompressorWriter::new`, over an empty
/// `Vec<u8>` as the sink.
///
/// Claims only that the new stream has been fed nothing yet and remembers
/// the buffer size it was given. The bound keeps the staging buffer within
/// what a vector can be asked to allocate.
#[verifier::external_body]
fn open_stream(buffer_size: usize) -> (stream: BrotliStream)
    requires
        buffer_size <= isize::MAX,
    ensures
        stream_buffer_size(stream) == buffer_size,
        stream_fed(stream) == Seq::<u8>::empty(),
{
    BrotliStream { writer: DecompressorWriter::new(Vec::new(), buffer_size) }
}

/// Trusted wrapper of `std::io::Write::write_all` on
/// `brotli::DecompressorWriter`, for a stream that has been fed nothing yet.
///
/// Claims that success or failure is decided by the buffer size and the bytes
/// alone ([`brotli_write_all_ok`]), and that afterwards the stream has been
/// fed exactly `bytes`, whether it took them or not. The decoder fails here
/// on corrupt data and on data that goes on behind the end of the Brotli
/// stream; input that merely stops early is taken.
#[verifier::external_body]
fn write_all(stream: &mut BrotliStream, bytes: &[u8]) -> (accepted: bool)
    requires
        stream_fed(*old(stream)).len() == 0,
    ensures
        stream_buffer_size(*final(stream)) == stream_buffer_size(*old(stream)),
        stream_fed(*final(stream)) == bytes@,
        accepted == brotli_write_all_ok(stream_buffer_size(*old(stream)), bytes@),
{
    stream.writer.write_all(bytes).is_ok()
}

/// Trusted wrapper of `std::io::Write::flush` on `brotli::DecompressorWriter`.
///
/// The decoder passes the flush on to its sink and does no decoding in it, so
/// the stream is afterwards as it was. Claims that success or failure is
/// decided by how the stream was opened and fed ([`brotli_flush_ok`]).
#[verifier::external_body]
fn flush(stream: &mut BrotliStream) -> (flushed: bool)
    ensures
        stream_buffer_size(*final(stream)) == stream_buffer_size(*old(stream)),
        stream_fed(*final(stream)) == stream_fed(*old(stream)),
        flushed == brotli_flush_ok(stream_buffer_size(*old(stream)), stream_fed(*old(stream))),
{
    stream.writer.flush().is_ok()
}

/// Trusted wrapper of `brotli::DecompressorWriter::into_inner`.
///
/// `into_inner` closes the decoder and gives the sink back: after a write that
/// was taken, as `Ok` where the Brotli stream was complete and as `Err` where
/// it was cut short. The wrapper keeps the sink of an `Ok` and drops that of
/// an `Err`. Claims that the outcome is decided by how the stream was opened
/// and fed ([`brotli_into_inner`]).
#[verifier::external_body]
fn into_inner(stream: BrotliStream) -> (sink: Option<Vec<u8>>)
    ensures
        bytes_of(sink) == brotli_into_inner(stream_buffer_size(stream), stream_fed(stream)),
{
    stream.writer.into_inner().ok()
}

/// What one run of the decoder over `compressed` leaves in the sink: every
/// byte is written, the stream is flushed, then closed. `None` where any of
/// the three steps fails.
pub open spec fn brotli_decoded(buffer_size: usize, compressed: Seq<u8>) -> Option<Seq<u8>> {
    if !brotli_write_all_ok(buffer_size, compressed) {
        None
    } else if !brotli_flush_ok(buffer_size, compressed) {
        None
    } else {
        brotli_into_inner(buffer_size, compressed)
    }
}

/// Decoded output counts only where there is some: a decoder that failed, or
/// one that decoded nothing, both leave no headers.
pub open spec fn nonempty(output: Option<Seq<u8>>) -> Option<Seq<u8>> {
    match output {
        Some(bytes) => if bytes.len() == 0 {
            None
        } else {
            Some(bytes)
        },
        None => None,
    }
}

/// The header bytes recovered from a compressed blob, or `None` where there
/// are none to be had: the blob is empty, the decoder rejects it, or it
/// decodes to nothing.
pub open spec fn decompressed_headers(compressed: Seq<u8>) -> Option<Seq<u8>> {
    if compressed.len() == 0 {
        None
    } else {
        nonempty(brotli_decoded(BROTLI_BUFFER_SIZE, compressed))
    }
}

/// Keeps the decoder's output where there is some, and gives `None` for a
/// failed run and for an empty output alike.
pub fn nonempty_output(output: Option<Vec<u8>>) -> (headers: Option<Vec<u8>>)
    ensures
        bytes_of(headers) == nonempty(bytes_of(output)),
        headers matches Some(bytes) ==> output == Some(bytes),
{
    match output {
        Some(bytes) => {
            if bytes.len() == 0 {
                None
            } else {
                Some(bytes)
            }
        },
        None => None,
    }
}

/// Decompresses a stored Brotli blob.
///
/// Returns the decoded bytes exactly where the blob is not empty, the decoder
/// takes all of it, flushes, closes on a complete stream, and has decoded at
/// least one byte. In every other case the result is `None`: no part of a
/// broken stream's output is ever handed out.
pub fn decompress_headers(compressed: &[u8]) -> (headers: Option<Vec<u8>>)
    ensures
        bytes_of(headers) == decompressed_headers(compressed@),
        compressed@.len() == 0 ==> headers is None,
        headers matches Some(bytes) ==> bytes@.len() > 0,
{
    if compressed.len() == 0 {
        return None;
    }
    let mut stream = open_stream(BROTLI_BUFFER_SIZE);
    if !write_all(&mut stream, compressed) {
        return None;
    }
    if !flush(&mut stream) {
        return None;
    }
    nonempty_output(into_inner(stream))
}

} // verus!
