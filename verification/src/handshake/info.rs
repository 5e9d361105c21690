//! The information items of `NBD_REP_INFO` replies.
use vstd::prelude::*;
use vstd::utf8::encode_utf8;
use bytes::Bytes;
use crate::buffer::{
    buf_freeze, buf_put_slice, buf_put_u16, buf_put_u32, buf_put_u64, buf_with_capacity,
    bytes_mut_view, bytes_view, fits_buffer,
};
use crate::value::{NBDInfoType, TransmissionFlags};
use crate::wire::{be16, be32, be64, be_value, lemma_be_bytes_len, lemma_be_fixed_roundtrip};

verus! {

/// An information item about an export, as the server sends it in an
/// `NBD_REP_INFO` reply.
#[derive(Clone, Debug, PartialEq, Eq)]
pub enum NBDInfo {
    /// `NBD_INFO_EXPORT`: the size of the export in bytes and its
    /// transmission flags.
    Export(u64, TransmissionFlags),
    /// `NBD_INFO_NAME`: the canonical name of the export.
    Name(String),
    /// `NBD_INFO_DESCRIPTION`: a description of the export for people.
    Description(String),
    /// `NBD_INFO_BLOCK_SIZE`: the minimum, preferred and maximum block sizes.
    BlockSize(u32, u32, u32),
}

impl NBDInfo {
    /// The bytes of the item: its 16-bit type, then its payload.
    pub open spec fn spec_wire(&self) -> Seq<u8> {
        match self {
            NBDInfo::Export(size, flags) => be16(NBDInfoType::NBD_INFO_EXPORT.spec_value())
                + be64(*size) + be16(*flags),
            NBDInfo::Name(name) => be16(NBDInfoType::NBD_INFO_NAME.spec_value()) + encode_utf8(
                name@,
            ),
            NBDInfo::Description(desc) => be16(NBDInfoType::NBD_INFO_DESCRIPTION.spec_value())
                + encode_utf8(desc@),
            NBDInfo::BlockSize(min, prefer, max) => be16(
                NBDInfoType::NBD_INFO_BLOCK_SIZE.spec_value(),
            ) + be32(*min) + be32(*prefer) + be32(*max),
        }
    }

    /// Serializes the item: its 16-bit type in network byte order, then its
    /// payload (for a name or a description, the UTF-8 bytes of the text).
    pub fn to_nbd_bytes(self) -> (b: Bytes)
        requires
            fits_buffer(self.spec_wire().len()),
        ensures
            bytes_view(b) == self.spec_wire(),
    {
        let ghost wire = self.spec_wire();
        let mut buf = buf_with_capacity(20);
        match self {
            NBDInfo::Export(size, trans_flags) => {
                proof {
                    lemma_be_bytes_len(0, 2);
                    lemma_be_bytes_len(size as nat, 8);
                }
                buf_put_u16(&mut buf, NBDInfoType::NBD_INFO_EXPORT.value());
                buf_put_u64(&mut buf, size);
                buf_put_u16(&mut buf, trans_flags);
            },
            NBDInfo::Name(name) => {
                proof {
                    lemma_be_bytes_len(1, 2);
                }
                buf_put_u16(&mut buf, NBDInfoType::NBD_INFO_NAME.value());
                buf_put_slice(&mut buf, name.as_str().as_bytes());
            },
            NBDInfo::Description(desc) => {
                proof {
                    lemma_be_bytes_len(2, 2);
                }
                buf_put_u16(&mut buf, NBDInfoType::NBD_INFO_DESCRIPTION.value());
                buf_put_slice(&mut buf, desc.as_str().as_bytes());
            },
            NBDInfo::BlockSize(min_size, prefer_size, max_size) => {
                proof {
                    lemma_be_bytes_len(3, 2);
                    lemma_be_bytes_len(min_size as nat, 4);
                    lemma_be_bytes_len(prefer_size as nat, 4);
                }
                buf_put_u16(&mut buf, NBDInfoType::NBD_INFO_BLOCK_SIZE.value());
                buf_put_u32(&mut buf, min_size);
                buf_put_u32(&mut buf, prefer_size);
                buf_put_u32(&mut buf, max_size);
            },
        };
        assert(bytes_mut_view(buf) =~= wire);
        buf_freeze(buf)
    }
}

/// The fixed-size items have the lengths the protocol requires: 12 bytes for
/// `NBD_INFO_EXPORT` and 14 bytes for `NBD_INFO_BLOCK_SIZE`; a name or a
/// description takes two bytes more than its text.
pub proof fn lemma_info_lengths(info: NBDInfo)
    ensures
        info is Export ==> info.spec_wire().len() == 12,
        info is BlockSize ==> info.spec_wire().len() == 14,
        info matches NBDInfo::Name(n) ==> info.spec_wire().len() == 2 + encode_utf8(n@).len(),
        info matches NBDInfo::Description(d) ==> info.spec_wire().len() == 2 + encode_utf8(
            d@,
        ).len(),
{
    match info {
        NBDInfo::Export(size, flags) => {
            lemma_be_bytes_len(0, 2);
            lemma_be_bytes_len(size as nat, 8);
            lemma_be_bytes_len(flags as nat, 2);
        },
        NBDInfo::Name(_) => {
            lemma_be_bytes_len(1, 2);
        },
        NBDInfo::Description(_) => {
            lemma_be_bytes_len(2, 2);
        },
        NBDInfo::BlockSize(a, b, c) => {
            lemma_be_bytes_len(3, 2);
            lemma_be_bytes_len(a as nat, 4);
            lemma_be_bytes_len(b as nat, 4);
            lemma_be_bytes_len(c as nat, 4);
        },
    }
}

/// The layout of every item: its 16-bit type number first (`NBD_INFO_EXPORT`
/// = 0, `NBD_INFO_NAME` = 1, `NBD_INFO_DESCRIPTION` = 2,
/// `NBD_INFO_BLOCK_SIZE` = 3), then its fields in order, each in network byte
/// order, or the whole text.
pub proof fn lemma_info_layout(info: NBDInfo)
    ensures
        ({
            let w = info.spec_wire();
            &&& w.len() >= 2
            &&& match info {
                NBDInfo::Export(size, flags) => be_value(w.subrange(0, 2)) == 0 && be_value(
                    w.subrange(2, 10),
                ) == size && be_value(w.subrange(10, 12)) == flags,
                NBDInfo::Name(name) => be_value(w.subrange(0, 2)) == 1 && w.skip(2) == encode_utf8(
                    name@,
                ),
                NBDInfo::Description(desc) => be_value(w.subrange(0, 2)) == 2 && w.skip(2)
                    == encode_utf8(desc@),
                NBDInfo::BlockSize(min, prefer, max) => be_value(w.subrange(0, 2)) == 3 && be_value(
                    w.subrange(2, 6),
                ) == min && be_value(w.subrange(6, 10)) == prefer && be_value(w.subrange(10, 14))
                    == max,
            }
        }),
{
    let w = info.spec_wire();
    match info {
        NBDInfo::Export(size, flags) => {
            lemma_be_fixed_roundtrip(0, 0, size);
            lemma_be_fixed_roundtrip(flags, 0, 0);
            assert(w.subrange(0, 2) =~= be16(0));
            assert(w.subrange(2, 10) =~= be64(size));
            assert(w.subrange(10, 12) =~= be16(flags));
        },
        NBDInfo::Name(name) => {
            lemma_be_fixed_roundtrip(1, 0, 0);
            assert(w.subrange(0, 2) =~= be16(1));
            assert(w.skip(2) =~= encode_utf8(name@));
        },
        NBDInfo::Description(desc) => {
            lemma_be_fixed_roundtrip(2, 0, 0);
            assert(w.subrange(0, 2) =~= be16(2));
            assert(w.skip(2) =~= encode_utf8(desc@));
        },
        NBDInfo::BlockSize(a, b, c) => {
            lemma_be_fixed_roundtrip(3, a, 0);
            lemma_be_fixed_roundtrip(0, b, 0);
            lemma_be_fixed_roundtrip(0, c, 0);
            assert(w.subrange(0, 2) =~= be16(3));
            assert(w.subrange(2, 6) =~= be32(a));
            assert(w.subrange(6, 10) =~= be32(b));
            assert(w.subrange(10, 14) =~= be32(c));
        },
    }
}

} // verus!
