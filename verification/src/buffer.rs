//! The byte buffers of the `bytes` crate, as the library sees them: each
//! buffer holds a sequence of bytes, named by `bytes_view` and
//! `bytes_mut_view`, and each operation the library calls states what it
//! does to that sequence. Nothing here is proved; each contract restates
//! what the crate's source and documentation show.
use vstd::prelude::*;
use bytes::{Buf, BufMut, Bytes, BytesMut};
use crate::wire::{be_bytes, be_value};

verus! {

/// `bytes::Bytes`, an immutable byte buffer; its bytes are `bytes_view`.
#[verifier::external_type_specification]
#[verifier::external_body]
pub struct ExBytes(bytes::Bytes);

/// `bytes::BytesMut`, a growable byte buffer; its bytes are `bytes_mut_view`.
#[verifier::external_type_specification]
#[verifier::external_body]
pub struct ExBytesMut(bytes::BytesMut);

/// The bytes an immutable `Bytes` buffer holds.
pub uninterp spec fn bytes_view(b: Bytes) -> Seq<u8>;

/// The bytes a growable `BytesMut` buffer holds (from its read cursor on).
pub uninterp spec fn bytes_mut_view(b: BytesMut) -> Seq<u8>;

/// Whether a buffer of `n` bytes can be allocated: `BytesMut` refuses to grow
/// beyond `isize::MAX` bytes, and panics when asked to.
pub open spec fn fits_buffer(n: nat) -> bool {
    n <= isize::MAX
}

/// `BytesMut::with_capacity`: a new buffer that holds no bytes (the
/// capacity only decides what is allocated up front).
#[verifier::external_body]
pub(crate) fn buf_with_capacity(capacity: usize) -> (buf: BytesMut)
    ensures
        bytes_mut_view(buf) == Seq::<u8>::empty(),
{
    BytesMut::with_capacity(capacity)
}

/// `BufMut::put_u16` on a `BytesMut`: appends the number in network byte
/// order; it panics when the buffer would exceed `isize::MAX` bytes.
#[verifier::external_body]
pub(crate) fn buf_put_u16(buf: &mut BytesMut, n: u16)
    requires
        fits_buffer(bytes_mut_view(*old(buf)).len() + 2),
    ensures
        bytes_mut_view(*final(buf)) == bytes_mut_view(*old(buf)) + be_bytes(n as nat, 2),
{
    buf.put_u16(n)
}

/// `BufMut::put_u32` on a `BytesMut`: appends the number in network byte
/// order; it panics when the buffer would exceed `isize::MAX` bytes.
#[verifier::external_body]
pub(crate) fn buf_put_u32(buf: &mut BytesMut, n: u32)
    requires
        fits_buffer(bytes_mut_view(*old(buf)).len() + 4),
    ensures
        bytes_mut_view(*final(buf)) == bytes_mut_view(*old(buf)) + be_bytes(n as nat, 4),
{
    buf.put_u32(n)
}

/// `BufMut::put_u64` on a `BytesMut`: appends the number in network byte
/// order; it panics when the buffer would exceed `isize::MAX` bytes.
#[verifier::external_body]
pub(crate) fn buf_put_u64(buf: &mut BytesMut, n: u64)
    requires
        fits_buffer(bytes_mut_view(*old(buf)).len() + 8),
    ensures
        bytes_mut_view(*final(buf)) == bytes_mut_view(*old(buf)) + be_bytes(n as nat, 8),
{
    buf.put_u64(n)
}

/// `BufMut::put_slice` on a `BytesMut`: appends the bytes of `src`; it
/// panics when the buffer would exceed `isize::MAX` bytes.
#[verifier::external_body]
pub(crate) fn buf_put_slice(buf: &mut BytesMut, src: &[u8])
    requires
        fits_buffer(bytes_mut_view(*old(buf)).len() + src@.len()),
    ensures
        bytes_mut_view(*final(buf)) == bytes_mut_view(*old(buf)) + src@,
{
    buf.put_slice(src)
}

/// `BytesMut::freeze`: the same bytes, as an immutable `Bytes`.
#[verifier::external_body]
pub(crate) fn buf_freeze(buf: BytesMut) -> (b: Bytes)
    ensures
        bytes_view(b) == bytes_mut_view(buf),
{
    buf.freeze()
}

/// `Buf::get_u16` on a `BytesMut`: removes the first two bytes and returns
/// the number they hold in network byte order; it panics when fewer than two
/// bytes remain.
#[verifier::external_body]
pub(crate) fn buf_get_u16(buf: &mut BytesMut) -> (n: u16)
    requires
        bytes_mut_view(*old(buf)).len() >= 2,
    ensures
        n as nat == be_value(bytes_mut_view(*old(buf)).take(2)),
        bytes_mut_view(*final(buf)) == bytes_mut_view(*old(buf)).skip(2),
{
    buf.get_u16()
}

/// `Buf::get_u32` on a `BytesMut`: removes the first four bytes and returns
/// the number they hold in network byte order; it panics when fewer than
/// four bytes remain.
#[verifier::external_body]
pub(crate) fn buf_get_u32(buf: &mut BytesMut) -> (n: u32)
    requires
        bytes_mut_view(*old(buf)).len() >= 4,
    ensures
        n as nat == be_value(bytes_mut_view(*old(buf)).take(4)),
        bytes_mut_view(*final(buf)) == bytes_mut_view(*old(buf)).skip(4),
{
    buf.get_u32()
}

/// `Buf::advance` on a `BytesMut`: drops the first `cnt` bytes; it panics
/// when fewer than `cnt` bytes remain.
#[verifier::external_body]
pub(crate) fn buf_advance(buf: &mut BytesMut, cnt: usize)
    requires
        cnt <= bytes_mut_view(*old(buf)).len(),
    ensures
        bytes_mut_view(*final(buf)) == bytes_mut_view(*old(buf)).skip(cnt as int),
{
    buf.advance(cnt)
}

/// `<BytesMut as AsRef<[u8]>>::as_ref`: the bytes the buffer holds, as a
/// slice.
#[verifier::external_body]
pub(crate) fn buf_as_slice(buf: &BytesMut) -> (s: &[u8])
    ensures
        s@ == bytes_mut_view(*buf),
{
    buf.as_ref()
}

/// `<Bytes as AsRef<[u8]>>::as_ref`: the bytes the buffer holds, as a slice.
#[verifier::external_body]
pub(crate) fn bytes_as_slice(b: &Bytes) -> (s: &[u8])
    ensures
        s@ == bytes_view(*b),
{
    b.as_ref()
}

/// `<Bytes as From<Vec<u8>>>::from`: a `Bytes` holding the vector's bytes.
#[verifier::external_body]
pub(crate) fn bytes_from_vec(v: Vec<u8>) -> (b: Bytes)
    ensures
        bytes_view(b) == v@,
{
    Bytes::from(v)
}

} // verus!
