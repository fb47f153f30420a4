//! The byte buffers that frames travel in, and what is taken on trust about them.
use vstd::prelude::*;
use bytes::Buf;
use bytes::Bytes;
use bytes::BytesMut;

verus! {

/// `bytes::Bytes`, an immutable run of bytes, carried as it is.
#[verifier::external_type_specification]
#[verifier::external_body]
pub struct ExBytes(bytes::Bytes);

/// `bytes::BytesMut`, a growable run of bytes, carried as it is.
#[verifier::external_type_specification]
#[verifier::external_body]
pub struct ExBytesMut(bytes::BytesMut);

/// The bytes that an immutable buffer holds, first to last.
pub uninterp spec fn frozen(bytes: Bytes) -> Seq<u8>;

/// The bytes that a growable buffer holds, first to last.
pub uninterp spec fn pending(buf: BytesMut) -> Seq<u8>;

/// The number that four bytes spell in little-endian order.
pub open spec fn le32(s: Seq<u8>) -> int
    recommends
        s.len() >= 4,
{
    s[0] + s[1] * 0x100 + s[2] * 0x1_0000 + s[3] * 0x100_0000
}

/// `BytesMut::with_capacity`: the new buffer holds no bytes. The capacity is
/// bounded because the allocation behind it cannot exceed `isize::MAX` bytes.
#[verifier::external_body]
pub(crate) fn with_capacity(capacity: usize) -> (buf: BytesMut)
    requires
        capacity <= isize::MAX,
    ensures
        pending(buf) == Seq::<u8>::empty(),
{
    BytesMut::with_capacity(capacity)
}

/// `BytesMut::len`: the number of bytes held.
#[verifier::external_body]
pub(crate) fn buffered(buf: &BytesMut) -> (n: usize)
    ensures
        n == pending(*buf).len(),
{
    buf.len()
}

/// `BytesMut`'s `Deref` to a slice: the slice shows the bytes held.
#[verifier::external_body]
pub(crate) fn contents(buf: &BytesMut) -> (s: &[u8])
    ensures
        s@ == pending(*buf),
{
    &buf[..]
}

/// `BytesMut::split_to`: the result holds the first `at` bytes and the buffer
/// keeps the rest. The call panics when `at` exceeds the length.
#[verifier::external_body]
pub(crate) fn split_to(buf: &mut BytesMut, at: usize) -> (head: BytesMut)
    requires
        at <= pending(*old(buf)).len(),
    ensures
        pending(head) == pending(*old(buf)).subrange(0, at as int),
        pending(*final(buf)) == pending(*old(buf)).subrange(
            at as int,
            pending(*old(buf)).len() as int,
        ),
{
    buf.split_to(at)
}

/// `BytesMut::freeze`: the immutable buffer holds the same bytes.
#[verifier::external_body]
pub(crate) fn freeze(buf: BytesMut) -> (bytes: Bytes)
    ensures
        frozen(bytes) == pending(buf),
{
    buf.freeze()
}

/// `BytesMut::extend_from_slice`: the bytes of `extend` are appended. The
/// call panics when the new length overflows.
#[verifier::external_body]
pub(crate) fn extend_from_slice(buf: &mut BytesMut, extend: &[u8])
    requires
        pending(*old(buf)).len() + extend@.len() <= isize::MAX,
    ensures
        pending(*final(buf)) == pending(*old(buf)) + extend@,
{
    buf.extend_from_slice(extend)
}

/// `Buf::get_u32_le` on a slice: the little-endian number spelled by the
/// first four bytes. The call panics on fewer than four bytes.
#[verifier::external_body]
pub(crate) fn get_u32_le(s: &[u8]) -> (v: u32)
    requires
        s@.len() >= 4,
    ensures
        v == le32(s@),
{
    let mut cursor: &[u8] = s;
    cursor.get_u32_le()
}

} // verus!
