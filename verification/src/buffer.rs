//! The byte buffers of the `bytes` crate, as the codec uses them.
//!
//! `BytesMut` is the buffer that messages are written into and `Bytes` the
//! shared, immutable buffer that a received datagram is kept in. Verus cannot
//! look inside either, so this module gives the content of each a name and
//! states, for the handful of operations the codec needs, what the operation
//! does to that content. These statements are taken on trust from the source
//! of `bytes`; everything else in the crate is proved from them.

use bytes::BufMut;
use bytes::Bytes;
use bytes::BytesMut;
use vstd::prelude::*;

verus! {

/// `bytes::BytesMut`, a growable buffer of bytes, as an opaque type.
#[verifier::external_type_specification]
#[verifier::external_body]
pub struct ExBytesMut(bytes::BytesMut);

/// `bytes::Bytes`, a shared buffer of bytes that does not change, as an
/// opaque type.
#[verifier::external_type_specification]
#[verifier::external_body]
pub struct ExBytes(bytes::Bytes);

/// The bytes that a `BytesMut` holds, first to last.
pub uninterp spec fn written(buf: BytesMut) -> Seq<u8>;

/// The bytes that a `Bytes` holds, first to last.
pub uninterp spec fn content(buf: Bytes) -> Seq<u8>;

/// `BytesMut::with_capacity`: a new buffer that holds no bytes, whatever the
/// capacity asked for. The buffer is made from a `Vec` of that capacity,
/// which panics where the capacity is more than `isize::MAX` bytes, so that
/// is excluded.
#[verifier::external_body]
pub(crate) fn with_capacity(capacity: usize) -> (buf: BytesMut)
    requires
        capacity <= isize::MAX,
    ensures
        written(buf) == Seq::<u8>::empty(),
{
    BytesMut::with_capacity(capacity)
}

/// `BufMut::put_u8` on a `BytesMut`: appends the one byte. The buffer grows
/// as needed, so the call fails only where memory runs out.
#[verifier::external_body]
pub(crate) fn put_u8(buf: &mut BytesMut, n: u8)
    ensures
        written(*final(buf)) == written(*old(buf)).push(n),
{
    buf.put_u8(n)
}

/// `BufMut::put_u16` on a `BytesMut`: appends the two bytes of `n`, the high
/// byte first. The buffer grows as needed.
#[verifier::external_body]
pub(crate) fn put_u16(buf: &mut BytesMut, n: u16)
    ensures
        written(*final(buf)) == written(*old(buf)).push((n / 256) as u8).push((n % 256) as u8),
{
    buf.put_u16(n)
}

/// `BufMut::put_slice` on a `BytesMut`: appends the bytes of `src` in order.
/// The buffer grows as needed.
#[verifier::external_body]
pub(crate) fn put_slice(buf: &mut BytesMut, src: &[u8])
    ensures
        written(*final(buf)) == written(*old(buf)) + src@,
{
    buf.put_slice(src)
}

/// `BytesMut::extend_from_slice`: appends the bytes of `extend` in order.
/// The buffer grows as needed.
#[verifier::external_body]
pub(crate) fn extend_from_slice(buf: &mut BytesMut, extend: &[u8])
    ensures
        written(*final(buf)) == written(*old(buf)) + extend@,
{
    buf.extend_from_slice(extend)
}

/// `AsRef<[u8]>` of `BytesMut`: the bytes held, as a slice.
#[verifier::external_body]
pub(crate) fn written_slice(buf: &BytesMut) -> (s: &[u8])
    ensures
        s@ == written(*buf),
{
    buf.as_ref()
}

/// `Bytes::from(Vec<u8>)`: a `Bytes` that holds the vector's bytes.
#[verifier::external_body]
pub(crate) fn bytes_from_vec(vec: Vec<u8>) -> (buf: Bytes)
    ensures
        content(buf) == vec@,
{
    Bytes::from(vec)
}

/// `AsRef<[u8]>` of `Bytes`: the bytes held, as a slice.
#[verifier::external_body]
pub(crate) fn content_slice(buf: &Bytes) -> (s: &[u8])
    ensures
        s@ == content(*buf),
{
    buf.as_ref()
}

/// `Bytes::slice` with a range that is open to the right: the bytes from
/// index `begin` on. The source panics where `begin` lies past the end, so
/// that is excluded.
#[verifier::external_body]
pub(crate) fn slice_from(buf: &Bytes, begin: usize) -> (tail: Bytes)
    requires
        begin <= content(*buf).len(),
    ensures
        content(tail) == content(*buf).subrange(begin as int, content(*buf).len() as int),
{
    buf.slice(begin..)
}

} // verus!
