//! Raw reading and writing of frames.
//! This is the true core of how gipc works - any change to this module is dangerous.
//!
//! A frame is an 8-byte unsigned big-endian length followed by exactly that many bytes. Nothing
//! here knows of envelopes, of closing or of a connection's state: a frame is a length-prefixed
//! blob. No maximum length is enforced: a caller that reads from a peer it does not trust has
//! to impose one itself.

use vstd::prelude::*;
use byteorder::ByteOrder;
use crate::error::Error;
use crate::transport::{Channel, ConnectionImpl};

verus! {

/// Number of bytes in the length prefix of a frame.
pub const PREFIX_LEN: u64 = 8;

/// The eight bytes of `n`, most significant first.
pub open spec fn be_bytes(n: u64) -> Seq<u8> {
    seq![
        ((n >> 56) & 0xff) as u8,
        ((n >> 48) & 0xff) as u8,
        ((n >> 40) & 0xff) as u8,
        ((n >> 32) & 0xff) as u8,
        ((n >> 24) & 0xff) as u8,
        ((n >> 16) & 0xff) as u8,
        ((n >> 8) & 0xff) as u8,
        (n & 0xff) as u8,
    ]
}

/// The number whose bytes, most significant first, are the eight given.
pub open spec fn be_join(b0: u8, b1: u8, b2: u8, b3: u8, b4: u8, b5: u8, b6: u8, b7: u8) -> u64 {
    (b0 as u64) << 56 | (b1 as u64) << 48 | (b2 as u64) << 40 | (b3 as u64) << 32 | (b4 as u64)
        << 24 | (b5 as u64) << 16 | (b6 as u64) << 8 | (b7 as u64)
}

/// The number whose eight bytes, most significant first, are `s`.
pub open spec fn be_value(s: Seq<u8>) -> u64
    recommends
        s.len() == 8,
{
    be_join(s[0], s[1], s[2], s[3], s[4], s[5], s[6], s[7])
}

/// The frame that carries `data`: the length of `data`, then `data`.
pub open spec fn frame(data: Seq<u8>) -> Seq<u8>
    recommends
        data.len() <= u64::MAX,
{
    be_bytes(data.len() as u64) + data
}

/// The body of the frame that `bytes` begins with, if a whole frame is there.
pub open spec fn first_frame(bytes: Seq<u8>) -> Option<Seq<u8>> {
    if bytes.len() >= 8 && bytes.len() - 8 >= be_value(bytes.take(8)) {
        Some(bytes.subrange(8, 8 + be_value(bytes.take(8))))
    } else {
        None
    }
}

/// Reading a number back from its eight bytes gives the number.
pub proof fn lemma_be_value_of_bytes(n: u64)
    ensures
        be_bytes(n).len() == 8,
        be_value(be_bytes(n)) == n,
{
    assert(((((n >> 56) & 0xff) as u8) as u64) << 56 | ((((n >> 48) & 0xff) as u8) as u64) << 48 | (
    (((n >> 40) & 0xff) as u8) as u64) << 40 | ((((n >> 32) & 0xff) as u8) as u64) << 32 | ((((n
        >> 24) & 0xff) as u8) as u64) << 24 | ((((n >> 16) & 0xff) as u8) as u64) << 16 | ((((n
        >> 8) & 0xff) as u8) as u64) << 8 | (((n & 0xff) as u8) as u64) == n) by (bit_vector);
}

/// Writing out the number that eight bytes stand for gives those bytes.
pub proof fn lemma_be_bytes_of_value(s: Seq<u8>)
    requires
        s.len() == 8,
    ensures
        be_bytes(be_value(s)) == s,
{
    let (b0, b1, b2, b3, b4, b5, b6, b7) = (s[0], s[1], s[2], s[3], s[4], s[5], s[6], s[7]);
    let n = be_join(b0, b1, b2, b3, b4, b5, b6, b7);
    assert(((n >> 56) & 0xff) as u8 == b0 && ((n >> 48) & 0xff) as u8 == b1 && ((n >> 40)
        & 0xff) as u8 == b2 && ((n >> 32) & 0xff) as u8 == b3) by (bit_vector)
        requires
            n == (b0 as u64) << 56 | (b1 as u64) << 48 | (b2 as u64) << 40 | (b3 as u64) << 32 | (
            b4 as u64) << 24 | (b5 as u64) << 16 | (b6 as u64) << 8 | (b7 as u64),
    ;
    assert(((n >> 24) & 0xff) as u8 == b4 && ((n >> 16) & 0xff) as u8 == b5 && ((n >> 8)
        & 0xff) as u8 == b6 && (n & 0xff) as u8 == b7) by (bit_vector)
        requires
            n == (b0 as u64) << 56 | (b1 as u64) << 48 | (b2 as u64) << 40 | (b3 as u64) << 32 | (
            b4 as u64) << 24 | (b5 as u64) << 16 | (b6 as u64) << 8 | (b7 as u64),
    ;
}

/// What is read first from a stream that starts with a frame is what the frame carries,
/// whatever follows the frame.
pub proof fn lemma_first_frame_of_frame(data: Seq<u8>, rest: Seq<u8>)
    requires
        data.len() <= u64::MAX,
    ensures
        first_frame(frame(data) + rest) == Some(data),
{
    lemma_be_value_of_bytes(data.len() as u64);
}

/// A stream that ends before the length that its prefix announces holds no frame.
pub proof fn lemma_truncated_frame(prefix: Seq<u8>, body: Seq<u8>)
    requires
        prefix.len() == 8,
        body.len() < be_value(prefix),
    ensures
        first_frame(prefix + body) is None,
{
}

/// Two frames are equal only if they carry the same bytes.
pub proof fn lemma_frame_injective(a: Seq<u8>, b: Seq<u8>)
    requires
        a.len() <= u64::MAX,
        b.len() <= u64::MAX,
        frame(a) == frame(b),
    ensures
        a == b,
{
    lemma_first_frame_of_frame(b, Seq::empty());
}

/// `byteorder::BigEndian::write_u64`: overwrites the first eight bytes of `buf` with `n`, most
/// significant byte first, and leaves the rest as it was. It panics on a shorter buffer, which
/// the precondition rules out.
#[verifier::external_body]
fn write_u64(buf: &mut Vec<u8>, n: u64)
    requires
        old(buf)@.len() >= 8,
    ensures
        final(buf)@ == be_bytes(n) + old(buf)@.skip(8),
{
    byteorder::BigEndian::write_u64(buf.as_mut_slice(), n);
}

/// `byteorder::BigEndian::read_u64`: the number that the first eight bytes of `buf` hold, most
/// significant byte first. It panics on a shorter buffer, which the precondition rules out.
#[verifier::external_body]
fn read_u64(buf: &[u8]) -> (n: u64)
    requires
        buf@.len() >= 8,
    ensures
        n == be_value(buf@.take(8)),
{
    byteorder::BigEndian::read_u64(buf)
}

/// Builds the frame that carries `data`.
pub fn serialised_vec(data: &Vec<u8>) -> (complete: Vec<u8>)
    ensures
        complete@ == frame(data@),
{
    let mut complete: Vec<u8> = Vec::with_capacity(8);
    let mut k: usize = 0;
    while k < 8
        invariant
            k <= 8,
            complete@.len() == k,
        decreases 8 - k,
    {
        complete.push(0u8);
        k = k + 1;
    }
    write_u64(&mut complete, data.len() as u64);
    let ghost head = complete@;
    let mut i: usize = 0;
    while i < data.len()
        invariant
            i <= data@.len(),
            complete@ == head + data@.take(i as int),
        decreases data@.len() - i,
    {
        complete.push(data[i]);
        i = i + 1;
    }
    complete
}

/// The length that the eight bytes of a frame's prefix announce.
pub fn frame_length(prefix: &[u8]) -> (r: Option<u64>)
    ensures
        r == (if prefix@.len() == 8 {
            Some(be_value(prefix@))
        } else {
            None
        }),
{
    if prefix.len() == 8 {
        Some(read_u64(prefix))
    } else {
        None
    }
}

/// Reads a frame from `reader` and returns what it carries.
///
/// Asks for the eight bytes of the prefix, then once for as many bytes as the prefix announces.
/// Any failure of the transport, the end of the stream among them, is an [`Error::Io`]: a
/// frame is returned whole or not at all. A failure leaves at most the prefix consumed. The
/// read succeeds if and only if the transport gives what it is asked for.
pub fn read_from<R: ConnectionImpl>(reader: &mut Channel<R>) -> (r: Result<Vec<u8>, Error>)
    ensures
        final(reader).same_writing(*old(reader)),
        final(reader).same_closing(*old(reader)),
        final(reader).read_one_frame(*old(reader)),
        match r {
            Ok(body) => {
                &&& final(reader).consumed() == old(reader).consumed() + frame(body@)
                &&& final(reader).failed_reads() == old(reader).failed_reads()
                &&& final(reader).last_failure() == old(reader).last_failure()
            },
            Err(e) => {
                &&& final(reader).last_failure() matches Some(inner) && e == Error::Io(inner)
                &&& final(reader).failed_reads() == old(reader).failed_reads() + 1
                &&& old(reader).consumed().is_prefix_of(final(reader).consumed())
                &&& final(reader).consumed().len() <= old(reader).consumed().len() + 8
            },
        },
{
    let prefix = match reader.read_exact(PREFIX_LEN) {
        Ok(prefix) => prefix,
        Err(e) => { return Err(Error::Io(e)); },
    };
    let size = read_u64(prefix.as_slice());
    match reader.read_exact(size) {
        Ok(body) => {
            proof {
                lemma_be_bytes_of_value(prefix@);
            }
            Ok(body)
        },
        Err(e) => Err(Error::Io(e)),
    }
}

/// Writes the frame that carries `data` to `writer`.
///
/// The whole frame is handed to the transport in a single write. The write succeeds if and
/// only if the transport's does; a failure of the transport is an [`Error::Io`].
pub fn write_to<W: ConnectionImpl>(writer: &mut Channel<W>, data: &Vec<u8>) -> (r: Result<
    (),
    Error,
>)
    ensures
        final(writer).same_reading(*old(writer)),
        final(writer).same_closing(*old(writer)),
        final(writer).written() == old(writer).written() + frame(data@),
        final(writer).write_requests() == old(writer).write_requests() + 1,
        final(writer).flushed() == old(writer).flushed(),
        final(writer).flush_requests() == old(writer).flush_requests(),
        final(writer).failed_flushes() == old(writer).failed_flushes(),
        match r {
            Ok(_) => {
                &&& final(writer).failed_writes() == old(writer).failed_writes()
                &&& final(writer).last_failure() == old(writer).last_failure()
            },
            Err(e) => {
                &&& final(writer).last_failure() matches Some(inner) && e == Error::Io(inner)
                &&& final(writer).failed_writes() == old(writer).failed_writes() + 1
            },
        },
{
    let complete = serialised_vec(data);
    match writer.write_all(complete.as_slice()) {
        Ok(_) => Ok(()),
        Err(e) => Err(Error::Io(e)),
    }
}

} // verus!
