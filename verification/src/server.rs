//! The decisions of an NBD server that exports an in-memory disk: which
//! replies answer an option, and what each request does to the disk and
//! which reply answers it. Reading from and writing to the connection is
//! left to the caller.
use vstd::prelude::*;
use bytes::{Bytes, BytesMut};
use crate::buffer::{
    buf_freeze, buf_put_slice, buf_put_u16, buf_put_u64, buf_with_capacity, bytes_as_slice, bytes_from_vec,
    bytes_mut_view, bytes_view, fits_buffer,
};
use crate::error::NbdError;
use crate::handshake::info::{lemma_info_lengths, NBDInfo};
use crate::handshake::init::{
    info_data_well_formed, spec_payload_accepted, OptionHaggle, OptionHaggleRep, OptionReplyContent,
};
use crate::transmission::{RequestMsg, SimpleReplyMsg};
use crate::value::{
    ErrorType, HandshakeFlag, HandshakeFlags, OptionType, RequestType, TransmissionFlag,
    TransmissionFlags, NBD_MAGIC, NBD_OPT_MAGIC,
};
use crate::wire::{be16, be64};

verus! {

broadcast use crate::wire::lemma_be_bytes_len;

/// The size of the export that `ServerState::new` creates: 256 MiB.
pub const EXPORT_SIZE: usize = 268435456;

/// The bytes of `disk` that a read of `len` bytes at `offset` returns.
pub open spec fn read_range(disk: Seq<u8>, offset: int, len: int) -> Seq<u8> {
    disk.subrange(offset, offset + len)
}

/// The disk after `payload` is written at `offset`.
pub open spec fn write_range(disk: Seq<u8>, offset: int, payload: Seq<u8>) -> Seq<u8> {
    disk.take(offset) + payload + disk.skip(offset + payload.len())
}

/// Whether `length` bytes at `offset` lie within a disk of `size` bytes.
pub open spec fn request_in_range(offset: u64, length: u32, size: nat) -> bool {
    offset + length <= size
}

/// What a server with an export of `size` bytes and transmission flags
/// `flags` answers to the option numbered `option` whose data is `p`, in
/// order: `NBD_REP_ERR_UNSUP` to a number the protocol does not define and to
/// the options it cannot represent (`NBD_OPT_PEEK_EXPORT`, `NBD_OPT_STARTTLS`
/// and the metadata-context options); `NBD_REP_ERR_INVALID` to
/// `NBD_OPT_LIST` or `NBD_OPT_STRUCTURED_REPLY` with data and to malformed
/// `NBD_OPT_INFO` or `NBD_OPT_GO` data; otherwise the replies of
/// `option_replies` to the decoded option (none to `NBD_OPT_EXPORT_NAME`,
/// which is answered by `export_name_info` instead).
pub open spec fn spec_option_answer(size: nat, flags: TransmissionFlags, option: u32, p: Seq<u8>) -> Seq<
    OptionReplyContent,
> {
    match OptionType::spec_from_value(option) {
        None => seq![OptionReplyContent::Unsupport(None)],
        Some(t) => if !spec_payload_accepted(t, p) {
            match t {
                OptionType::NBD_OPT_LIST | OptionType::NBD_OPT_STRUCTURED_REPLY
                | OptionType::NBD_OPT_INFO | OptionType::NBD_OPT_GO => seq![
                    OptionReplyContent::Invalid(None),
                ],
                _ => seq![OptionReplyContent::Unsupport(None)],
            }
        } else {
            match t {
                OptionType::NBD_OPT_ABORT | OptionType::NBD_OPT_LIST => seq![
                    OptionReplyContent::ACK,
                ],
                OptionType::NBD_OPT_INFO | OptionType::NBD_OPT_GO => seq![
                    OptionReplyContent::Info(NBDInfo::Export(size as u64, flags)),
                    OptionReplyContent::ACK,
                ],
                OptionType::NBD_OPT_EXPORT_NAME => Seq::empty(),
                _ => seq![OptionReplyContent::Unsupport(None)],
            }
        },
    }
}

/// Where option haggling stands after an option has been answered.
#[derive(Clone, Copy, Debug, PartialEq, Eq, Structural)]
pub enum HagglePhase {
    /// More options follow.
    Haggling,
    /// The transmission phase begins.
    Transmission,
    /// The client aborted; the session ends.
    Close,
}

/// Where haggling stands after the option numbered `option` with data `p`:
/// `NBD_OPT_EXPORT_NAME` and a well-formed `NBD_OPT_GO` (answered by
/// `NBD_REP_ACK`) begin transmission, `NBD_OPT_ABORT` ends the session, and
/// every other option, or an error reply, leaves haggling going on.
pub open spec fn spec_haggle_phase(option: u32, p: Seq<u8>) -> HagglePhase {
    match OptionType::spec_from_value(option) {
        Some(OptionType::NBD_OPT_EXPORT_NAME) => HagglePhase::Transmission,
        Some(OptionType::NBD_OPT_ABORT) => HagglePhase::Close,
        Some(OptionType::NBD_OPT_GO) => if spec_payload_accepted(OptionType::NBD_OPT_GO, p) {
            HagglePhase::Transmission
        } else {
            HagglePhase::Haggling
        },
        _ => HagglePhase::Haggling,
    }
}

/// What answers `NBD_OPT_EXPORT_NAME`: the 64-bit size of the export, its
/// 16-bit transmission flags, then 124 zero bytes unless the client and the
/// server both chose `NO_ZEROES`.
pub open spec fn export_name_info(size: nat, flags: TransmissionFlags, no_zeroes: bool) -> Seq<u8> {
    be64(size as u64) + be16(flags) + if no_zeroes {
        Seq::empty()
    } else {
        Seq::new(124, |i: int| 0u8)
    }
}

/// Whether the bit of value 2 is set in `flags` (`NBD_FLAG_NO_ZEROES` among
/// handshake flags, `NBD_FLAG_C_NO_ZEROES` among client flags).
pub open spec fn has_no_zeroes_bit(flags: nat) -> bool {
    (flags / 2) % 2 == 1
}

/// What one step of option haggling gives: the option replies to send, in
/// order; the export information to send after them, if any; and where
/// haggling then stands.
pub struct HaggleStep {
    pub replies: Vec<OptionHaggleRep>,
    pub export_info: Option<Bytes>,
    pub phase: HagglePhase,
}

/// The state of a server: its handshake flags, the transmission flags of
/// its export, and the contents of the export.
pub struct ServerState {
    server_flags: HandshakeFlags,
    transmission_flags: TransmissionFlags,
    data: Vec<u8>,
}

impl ServerState {
    /// A reply that carries the whole export still fits in a buffer.
    #[verifier::type_invariant]
    spec fn size_fits(&self) -> bool {
        self.data@.len() + 16 <= isize::MAX
    }

    /// The contents of the export.
    pub closed spec fn disk(&self) -> Seq<u8> {
        self.data@
    }

    /// The handshake flags the server sends.
    pub closed spec fn spec_server_flags(&self) -> HandshakeFlags {
        self.server_flags
    }

    /// The transmission flags of the export.
    pub closed spec fn spec_transmission_flags(&self) -> TransmissionFlags {
        self.transmission_flags
    }

    /// A server exporting 256 MiB of zeros, which supports the fixed
    /// newstyle handshake and advertises only `NBD_FLAG_HAS_FLAGS`.
    pub fn new() -> (s: Self)
        ensures
            s.disk() == Seq::new(EXPORT_SIZE as nat, |i: int| 0u8),
            s.spec_server_flags() == HandshakeFlag::NBD_FLAG_FIXED_NEWSTYLE.spec_value(),
            s.spec_transmission_flags() == TransmissionFlag::NBD_FLAG_HAS_FLAGS.spec_value(),
    {
        Self::with_size(EXPORT_SIZE)
    }

    /// A server exporting `size` bytes of zeros, with the flags of `new`.
    pub fn with_size(size: usize) -> (s: Self)
        requires
            size + 16 <= isize::MAX,
        ensures
            s.disk() == Seq::new(size as nat, |i: int| 0u8),
            s.spec_server_flags() == HandshakeFlag::NBD_FLAG_FIXED_NEWSTYLE.spec_value(),
            s.spec_transmission_flags() == TransmissionFlag::NBD_FLAG_HAS_FLAGS.spec_value(),
    {
        let data = vec![0u8; size];
        assert(data@ =~= Seq::new(size as nat, |i: int| 0u8));
        ServerState {
            server_flags: HandshakeFlag::NBD_FLAG_FIXED_NEWSTYLE.value(),
            transmission_flags: TransmissionFlag::NBD_FLAG_HAS_FLAGS.value(),
            data,
        }
    }

    /// The size of the export in bytes.
    pub fn size(&self) -> (n: u64)
        ensures
            n == self.disk().len(),
    {
        self.data.len() as u64
    }

    /// The handshake flags the server sends.
    pub fn server_flags(&self) -> (f: HandshakeFlags)
        ensures
            f == self.spec_server_flags(),
    {
        self.server_flags
    }

    /// The transmission flags of the export.
    pub fn transmission_flags(&self) -> (f: TransmissionFlags)
        ensures
            f == self.spec_transmission_flags(),
    {
        self.transmission_flags
    }

    /// The first bytes the server sends: `NBDMAGIC`, `IHAVEOPT`, then its
    /// 16-bit handshake flags, all in network byte order.
    pub fn greeting(&self) -> (b: Bytes)
        ensures
            bytes_view(b) == be64(NBD_MAGIC) + be64(NBD_OPT_MAGIC) + be16(self.spec_server_flags()),
    {
        let mut buf = buf_with_capacity(18);
        buf_put_u64(&mut buf, NBD_MAGIC);
        buf_put_u64(&mut buf, NBD_OPT_MAGIC);
        buf_put_u16(&mut buf, self.server_flags);
        assert(bytes_mut_view(buf) =~= be64(NBD_MAGIC) + be64(NBD_OPT_MAGIC) + be16(
            self.spec_server_flags(),
        ));
        buf_freeze(buf)
    }

    /// Whether the server goes on after the client sent `flags`: only the
    /// client flags the protocol defines (`NBD_FLAG_C_FIXED_NEWSTYLE` and
    /// `NBD_FLAG_C_NO_ZEROES`) may be set, and `NBD_FLAG_C_NO_ZEROES` only
    /// when the server offered `NBD_FLAG_NO_ZEROES`; otherwise the server must
    /// drop the connection.
    pub fn accept_client_flags(&self, flags: u32) -> (ok: bool)
        ensures
            ok == (flags <= 3 && (flags >= 2 ==> has_no_zeroes_bit(
                self.spec_server_flags() as nat,
            ))),
    {
        flags <= 3 && (flags < 2 || (self.server_flags / 2) % 2 == 1)
    }

    /// Whether trailing zeros are left out of the `NBD_OPT_EXPORT_NAME`
    /// answer: when both the server and the client (`client_flags`) chose
    /// `NO_ZEROES`.
    pub fn no_zeroes(&self, client_flags: u32) -> (b: bool)
        ensures
            b == (has_no_zeroes_bit(client_flags as nat) && has_no_zeroes_bit(
                self.spec_server_flags() as nat,
            )),
    {
        (client_flags / 2) % 2 == 1 && (self.server_flags / 2) % 2 == 1
    }

    /// The answer to `NBD_OPT_EXPORT_NAME` (see `export_name_info`).
    pub fn export_name_info(&self, no_zeroes: bool) -> (b: Bytes)
        ensures
            bytes_view(b) == export_name_info(
                self.disk().len(),
                self.spec_transmission_flags(),
                no_zeroes,
            ),
    {
        let ghost expected = export_name_info(
            self.disk().len(),
            self.spec_transmission_flags(),
            no_zeroes,
        );
        let mut buf = buf_with_capacity(138);
        buf_put_u64(&mut buf, self.size());
        buf_put_u16(&mut buf, self.transmission_flags);
        if !no_zeroes {
            let zeros = vec![0u8; 124];
            buf_put_slice(&mut buf, zeros.as_slice());
            assert(zeros@ =~= Seq::new(124, |i: int| 0u8));
        }
        assert(bytes_mut_view(buf) =~= expected);
        buf_freeze(buf)
    }

    /// One step of option haggling: the answer to an option request whose
    /// header holds `magic` and the option number `option` and whose data is
    /// `data`, from a client that sent `client_flags` (see
    /// `spec_option_answer`, `export_name_info` and `spec_haggle_phase`); an
    /// error when `magic` is not `NBD_OPT_MAGIC`.
    pub fn haggle_step(&self, client_flags: u32, magic: u64, option: u32, data: BytesMut) -> (r:
        Result<HaggleStep, NbdError>)
        ensures
            magic != NBD_OPT_MAGIC ==> r == Err::<HaggleStep, NbdError>(
                NbdError::BadOptionMagic(magic),
            ),
            magic == NBD_OPT_MAGIC ==> (r matches Ok(step) && ({
                let answer = spec_option_answer(
                    self.disk().len(),
                    self.spec_transmission_flags(),
                    option,
                    bytes_mut_view(data),
                );
                &&& step.replies.len() == answer.len()
                &&& forall|i: int|
                    0 <= i < step.replies.len() ==> (#[trigger] step.replies[i]).spec_client_option()
                        == option && step.replies[i].spec_reply() == answer[i] && fits_buffer(
                        step.replies[i].spec_wire().len(),
                    )
                &&& step.phase == spec_haggle_phase(option, bytes_mut_view(data))
                &&& if option == OptionType::NBD_OPT_EXPORT_NAME.spec_value() {
                    &&& step.export_info is Some
                    &&& bytes_view(step.export_info->0) == export_name_info(
                        self.disk().len(),
                        self.spec_transmission_flags(),
                        has_no_zeroes_bit(client_flags as nat) && has_no_zeroes_bit(
                            self.spec_server_flags() as nat,
                        ),
                    )
                } else {
                    step.export_info is None
                }
            })),
    {
        if magic != NBD_OPT_MAGIC {
            return Err(NbdError::BadOptionMagic(magic));
        }
        let phase = match OptionType::try_from_primitive(option) {
            Some(OptionType::NBD_OPT_EXPORT_NAME) => HagglePhase::Transmission,
            Some(OptionType::NBD_OPT_ABORT) => HagglePhase::Close,
            Some(OptionType::NBD_OPT_GO) => {
                if OptionHaggle::payload_accepted(OptionType::NBD_OPT_GO, &data) {
                    HagglePhase::Transmission
                } else {
                    HagglePhase::Haggling
                }
            },
            _ => HagglePhase::Haggling,
        };
        let export_info = if option == OptionType::NBD_OPT_EXPORT_NAME.value() {
            Some(self.export_name_info(self.no_zeroes(client_flags)))
        } else {
            None
        };
        let replies = match self.answer_option(magic, option, data) {
            Ok(replies) => replies,
            Err(e) => {
                return Err(e);
            },
        };
        Ok(HaggleStep { replies, export_info, phase })
    }

    /// The replies that answer an option request whose header holds `magic`
    /// and the option number `option` and whose data is `data`, in the order
    /// they are sent (see `spec_option_answer`); an error when `magic` is not
    /// `NBD_OPT_MAGIC`.
    pub fn answer_option(&self, magic: u64, option: u32, data: BytesMut) -> (r: Result<
        Vec<OptionHaggleRep>,
        NbdError,
    >)
        ensures
            magic != NBD_OPT_MAGIC ==> r == Err::<Vec<OptionHaggleRep>, NbdError>(
                NbdError::BadOptionMagic(magic),
            ),
            magic == NBD_OPT_MAGIC ==> (r matches Ok(replies) && ({
                let answer = spec_option_answer(
                    self.disk().len(),
                    self.spec_transmission_flags(),
                    option,
                    bytes_mut_view(data),
                );
                &&& replies.len() == answer.len()
                &&& forall|i: int|
                    0 <= i < replies.len() ==> (#[trigger] replies[i]).spec_client_option()
                        == option && replies[i].spec_reply() == answer[i] && fits_buffer(
                        replies[i].spec_wire().len(),
                    )
            })),
    {
        if magic != NBD_OPT_MAGIC {
            return Err(NbdError::BadOptionMagic(magic));
        }
        match OptionType::try_from_primitive(option) {
            None => {
                let mut reply = OptionHaggleRep::with_option_number(option);
                reply.unsupport();
                let mut replies: Vec<OptionHaggleRep> = Vec::new();
                replies.push(reply);
                Ok(replies)
            },
            Some(t) => {
                if OptionHaggle::payload_accepted(t, &data) {
                    let opt = OptionHaggle::decode_data(t, data);
                    Ok(self.option_replies(&opt))
                } else {
                    let mut reply = OptionHaggleRep::with_option(t);
                    match t {
                        OptionType::NBD_OPT_LIST | OptionType::NBD_OPT_STRUCTURED_REPLY
                        | OptionType::NBD_OPT_INFO | OptionType::NBD_OPT_GO => reply.invalid(),
                        _ => reply.unsupport(),
                    }
                    let mut replies: Vec<OptionHaggleRep> = Vec::new();
                    replies.push(reply);
                    Ok(replies)
                }
            },
        }
    }

    /// The replies that answer the option `opt`, in the order they are sent:
    /// `NBD_REP_ACK` for `NBD_OPT_ABORT` and `NBD_OPT_LIST`; for
    /// `NBD_OPT_INFO` and `NBD_OPT_GO`, an `NBD_REP_INFO` with the
    /// `NBD_INFO_EXPORT` item (size and transmission flags) and then
    /// `NBD_REP_ACK`; none for `NBD_OPT_EXPORT_NAME`, which is answered by
    /// `export_name_info`; `NBD_REP_ERR_UNSUP` for `NBD_OPT_STRUCTURED_REPLY`.
    pub fn option_replies(&self, opt: &OptionHaggle) -> (replies: Vec<OptionHaggleRep>)
        ensures
            forall|i: int|
                0 <= i < replies.len() ==> (#[trigger] replies[i]).spec_client_option()
                    == opt.spec_option_type().spec_value() && fits_buffer(replies[i].spec_wire().len()),
            match opt {
                OptionHaggle::Abort | OptionHaggle::List => replies.len() == 1
                    && replies[0].spec_reply() == OptionReplyContent::ACK,
                OptionHaggle::Info(_, _) | OptionHaggle::Go(_, _) => replies.len() == 2
                    && replies[0].spec_reply() == OptionReplyContent::Info(
                    NBDInfo::Export(self.disk().len() as u64, self.spec_transmission_flags()),
                ) && replies[1].spec_reply() == OptionReplyContent::ACK,
                OptionHaggle::ExportName(_) => replies.len() == 0,
                _ => replies.len() == 1 && replies[0].spec_reply()
                    == OptionReplyContent::Unsupport(None),
            },
    {
        proof {
            use_type_invariant(self);
            lemma_info_lengths(NBDInfo::Export(self.disk().len() as u64, self.transmission_flags));
        }
        let option = opt.option_type();
        let mut replies: Vec<OptionHaggleRep> = Vec::new();
        match opt {
            OptionHaggle::Abort | OptionHaggle::List => {
                let mut reply = OptionHaggleRep::with_option(option);
                reply.ack();
                replies.push(reply);
            },
            OptionHaggle::Info(_, _) | OptionHaggle::Go(_, _) => {
                let mut reply = OptionHaggleRep::with_option(option);
                reply.info(NBDInfo::Export(self.size(), self.transmission_flags));
                replies.push(reply);
                let mut reply = OptionHaggleRep::with_option(option);
                reply.ack();
                replies.push(reply);
            },
            OptionHaggle::ExportName(_) => {},
            _ => {
                let mut reply = OptionHaggleRep::with_option(option);
                reply.unsupport();
                replies.push(reply);
            },
        }
        replies
    }

    /// Carries out `request` on the export and gives the reply that answers
    /// it; `None` for `NBD_CMD_DISC`, which ends the transmission phase.
    /// A read returns the bytes it asks for, or `NBD_EINVAL` when they do not
    /// all lie within the export; a write stores its data, or answers
    /// `NBD_ENOSPC` when it does not fit; the other requests are answered with
    /// `NBD_ENOTSUP` and change nothing. Every reply carries the handle of the
    /// request.
    pub fn handle_request(&mut self, request: RequestMsg) -> (reply: Option<SimpleReplyMsg>)
        requires
            request.spec_payload_consistent(),
        ensures
            final(self).spec_server_flags() == old(self).spec_server_flags(),
            final(self).spec_transmission_flags() == old(self).spec_transmission_flags(),
            reply matches Some(r) ==> r.spec_handle() == request.handle && fits_buffer(
                r.spec_wire().len(),
            ),
            final(self).disk().len() == old(self).disk().len(),
            ({
                let disk = old(self).disk();
                let in_range = request_in_range(request.offset, request.length, disk.len());
                match request.request_type {
                    RequestType::NBD_CMD_READ => reply matches Some(r) && final(self).disk() == disk
                        && if in_range {
                        &&& r.spec_error() == ErrorType::NO_ERROR
                        &&& r.spec_data() is Some
                        &&& bytes_view(r.spec_data()->0) == read_range(
                            disk,
                            request.offset as int,
                            request.length as int,
                        )
                    } else {
                        r.spec_error() == ErrorType::NBD_EINVAL && r.spec_data() is None
                    },
                    RequestType::NBD_CMD_WRITE => reply matches Some(r) && r.spec_data() is None
                        && if in_range {
                        r.spec_error() == ErrorType::NO_ERROR && final(self).disk() == write_range(
                            disk,
                            request.offset as int,
                            bytes_view(request.data->0),
                        )
                    } else {
                        r.spec_error() == ErrorType::NBD_ENOSPC && final(self).disk() == disk
                    },
                    RequestType::NBD_CMD_DISC => reply is None && final(self).disk() == disk,
                    _ => reply matches Some(r) && r.spec_error() == ErrorType::NBD_ENOTSUP
                        && r.spec_data() is None && final(self).disk() == disk,
                }
            }),
    {
        proof {
            use_type_invariant(&*self);
        }
        let size = self.data.len() as u64;
        let in_range = request.offset <= size && request.length as u64 <= size - request.offset;
        match request.request_type {
            RequestType::NBD_CMD_READ => {
                if !in_range {
                    return Some(SimpleReplyMsg::with_err(&request, ErrorType::NBD_EINVAL));
                }
                let start = request.offset as usize;
                let end = start + request.length as usize;
                let data = vstd::slice::slice_to_vec(&self.data.as_slice()[start..end]);
                Some(SimpleReplyMsg::with_data(&request, bytes_from_vec(data)))
            },
            RequestType::NBD_CMD_WRITE => {
                if !in_range {
                    return Some(SimpleReplyMsg::with_err(&request, ErrorType::NBD_ENOSPC));
                }
                let start = request.offset as usize;
                match &request.data {
                    Some(payload) => {
                        let payload = bytes_as_slice(payload);
                        self.store(start, payload);
                    },
                    None => {},
                }
                Some(SimpleReplyMsg::new(&request))
            },
            RequestType::NBD_CMD_DISC => None,
            _ => Some(SimpleReplyMsg::with_err(&request, ErrorType::NBD_ENOTSUP)),
        }
    }

    /// Copies `payload` into the export at `start`.
    fn store(&mut self, start: usize, payload: &[u8])
        requires
            start + payload@.len() <= old(self).disk().len(),
        ensures
            final(self).disk() == write_range(old(self).disk(), start as int, payload@),
            final(self).spec_server_flags() == old(self).spec_server_flags(),
            final(self).spec_transmission_flags() == old(self).spec_transmission_flags(),
    {
        proof {
            use_type_invariant(&*self);
        }
        let mut data: Vec<u8> = Vec::new();
        std::mem::swap(&mut data, &mut self.data);
        let ghost disk = data@;
        let len = data.len();
        let mut i: usize = 0;
        while i < payload.len()
            invariant
                0 <= i <= payload@.len(),
                start + payload@.len() <= disk.len(),
                data@.len() == disk.len(),
                disk.len() == len,
                data@ == disk.take(start as int) + payload@.take(i as int) + disk.skip(start + i),
            decreases payload@.len() - i,
        {
            data.set(start + i, payload[i]);
            i = i + 1;
            assert(data@ =~= disk.take(start as int) + payload@.take(i as int) + disk.skip(
                start + i,
            ));
        }
        self.data = data;
        assert(payload@.take(i as int) =~= payload@);
    }
}

/// A read of the bytes a write just stored gives back exactly those bytes;
/// a write changes no byte outside its range and not the size of the disk.
pub proof fn lemma_read_after_write(disk: Seq<u8>, offset: int, payload: Seq<u8>)
    requires
        0 <= offset,
        offset + payload.len() <= disk.len(),
    ensures
        read_range(write_range(disk, offset, payload), offset, payload.len() as int) == payload,
        write_range(disk, offset, payload).len() == disk.len(),
        forall|i: int|
            0 <= i < disk.len() && !(offset <= i < offset + payload.len()) ==> #[trigger] write_range(
                disk,
                offset,
                payload,
            )[i] == disk[i],
{
    assert(read_range(write_range(disk, offset, payload), offset, payload.len() as int) =~= payload);
}

/// A request lies within the export exactly when its last byte does: the
/// offset plus the length is at most the size, whatever the length.
pub proof fn lemma_request_in_range(offset: u64, length: u32, size: nat)
    ensures
        request_in_range(offset, length, size) <==> offset as int + length as int <= size,
{
}

/// A read of `len` bytes at `offset` gives exactly the disk's bytes
/// `offset .. offset + len`, in order.
pub proof fn lemma_read_range_bytes(disk: Seq<u8>, offset: int, len: int)
    requires
        0 <= offset,
        0 <= len,
        offset + len <= disk.len(),
    ensures
        read_range(disk, offset, len).len() == len,
        forall|i: int| 0 <= i < len ==> #[trigger] read_range(disk, offset, len)[i] == disk[offset + i],
{
}

/// A write puts the `i`-th byte of its data at `offset + i`.
pub proof fn lemma_write_range_bytes(disk: Seq<u8>, offset: int, payload: Seq<u8>)
    requires
        0 <= offset,
        offset + payload.len() <= disk.len(),
    ensures
        write_range(disk, offset, payload).len() == disk.len(),
        forall|i: int|
            0 <= i < payload.len() ==> #[trigger] write_range(disk, offset, payload)[offset + i]
                == payload[i],
{
}

/// What the server answers to each option, by its number on the wire:
/// `NBD_OPT_INFO` (6) and `NBD_OPT_GO` (7) with well-formed data, whatever
/// name and information requests it holds, get the `NBD_INFO_EXPORT` item of
/// the export and then `NBD_REP_ACK`, and malformed data `NBD_REP_ERR_INVALID`;
/// `NBD_OPT_ABORT` (2) gets `NBD_REP_ACK` whatever its data; `NBD_OPT_LIST` (3)
/// gets `NBD_REP_ACK` without data and `NBD_REP_ERR_INVALID` with data;
/// `NBD_OPT_EXPORT_NAME` (1) gets no option reply; `NBD_OPT_STRUCTURED_REPLY`
/// (8) gets `NBD_REP_ERR_UNSUP` without data and `NBD_REP_ERR_INVALID` with
/// data; every other number gets `NBD_REP_ERR_UNSUP`.
pub proof fn lemma_option_answers(size: nat, flags: TransmissionFlags, option: u32, p: Seq<u8>)
    ensures
        (option == 6 || option == 7) && info_data_well_formed(p) ==> spec_option_answer(
            size,
            flags,
            option,
            p,
        ) == seq![
            OptionReplyContent::Info(NBDInfo::Export(size as u64, flags)),
            OptionReplyContent::ACK,
        ],
        (option == 6 || option == 7) && !info_data_well_formed(p) ==> spec_option_answer(
            size,
            flags,
            option,
            p,
        ) == seq![OptionReplyContent::Invalid(None)],
        option == 2 ==> spec_option_answer(size, flags, option, p) == seq![
            OptionReplyContent::ACK,
        ],
        option == 3 ==> spec_option_answer(size, flags, option, p) == if p.len() == 0 {
            seq![OptionReplyContent::ACK]
        } else {
            seq![OptionReplyContent::Invalid(None)]
        },
        option == 1 ==> spec_option_answer(size, flags, option, p) == Seq::<
            OptionReplyContent,
        >::empty(),
        option == 8 ==> spec_option_answer(size, flags, option, p) == if p.len() == 0 {
            seq![OptionReplyContent::Unsupport(None)]
        } else {
            seq![OptionReplyContent::Invalid(None)]
        },
        !(1 <= option <= 3 || 6 <= option <= 8) ==> spec_option_answer(size, flags, option, p)
            == seq![OptionReplyContent::Unsupport(None)],
{
}

/// Only `NBD_OPT_ABORT` (2) ends the session, and only
/// `NBD_OPT_EXPORT_NAME` (1) or an `NBD_OPT_GO` (7) with well-formed data
/// (answered by `NBD_REP_ACK`) begins transmission; after every other
/// option, known or not, refused or not, haggling goes on.
pub proof fn lemma_haggle_phases(option: u32, p: Seq<u8>)
    ensures
        spec_haggle_phase(option, p) == HagglePhase::Close <==> option == 2,
        spec_haggle_phase(option, p) == HagglePhase::Transmission <==> (option == 1 || (option
            == 7 && info_data_well_formed(p))),
        spec_haggle_phase(option, p) == HagglePhase::Haggling <==> !(option == 1 || option == 2
            || (option == 7 && info_data_well_formed(p))),
{
}

} // verus!
