//! Option haggling: the options a client sends, how they are serialized
//! and decoded, and the replies a server sends to them.
use vstd::prelude::*;
use vstd::std_specs::convert::FromSpecImpl;
use vstd::utf8::encode_utf8;
use bytes::{Bytes, BytesMut};
use crate::buffer::{
    buf_advance, buf_as_slice, buf_freeze, buf_get_u16, buf_get_u32, buf_put_slice, buf_put_u16,
    buf_put_u32, buf_put_u64, buf_with_capacity, bytes_as_slice, bytes_mut_view, bytes_view,
    fits_buffer,
};
use crate::error::NbdError;
use crate::handshake::info::NBDInfo;
use crate::value::{NBDInfoType, OptionReplyType, OptionType, NBD_OPT_MAGIC, NBD_OPT_REP_MAGIC};
use crate::wire::{
    be16, be32, be64, be_value, lemma_be_bytes_len, lemma_be_fixed_roundtrip,
    lemma_pow256_values, read_be16, read_be32,
};

verus! {

broadcast use crate::wire::lemma_be_bytes_len;

/// An option that a client sends while haggling options:
/// `IHAVEOPT`, a 32-bit option number, a 32-bit data length, then the data.
#[derive(Clone, Debug, PartialEq, Eq)]
pub enum OptionHaggle {
    /// `NBD_OPT_EXPORT_NAME`, with the name of the export.
    ExportName(Vec<u8>),
    /// `NBD_OPT_ABORT`.
    Abort,
    /// `NBD_OPT_LIST`.
    List,
    /// `NBD_OPT_INFO`, with the name of the export and the information
    /// items requested.
    Info(Vec<u8>, Vec<NBDInfoType>),
    /// `NBD_OPT_GO`, with the name of the export and the information items
    /// requested.
    Go(Vec<u8>, Vec<NBDInfoType>),
    /// `NBD_OPT_STRUCTURED_REPLY`.
    StructuredReply,
}

/// The bytes of a list of information requests: each a 16-bit type.
pub open spec fn info_codes(infos: Seq<NBDInfoType>) -> Seq<u8>
    decreases infos.len(),
{
    if infos.len() == 0 {
        Seq::empty()
    } else {
        info_codes(infos.drop_last()) + be16(infos.last().spec_value())
    }
}

/// The data of `NBD_OPT_INFO` and `NBD_OPT_GO`: the 32-bit length of the
/// name, the name, the 16-bit number of information requests, then the
/// requests.
pub open spec fn info_request_data(name: Seq<u8>, infos: Seq<NBDInfoType>) -> Seq<u8> {
    be32(name.len() as u32) + name + be16(infos.len() as u16) + info_codes(infos)
}

/// The length of the name, as `NBD_OPT_INFO` or `NBD_OPT_GO` data states it.
pub open spec fn data_name_len(p: Seq<u8>) -> int {
    be_value(p.subrange(0, 4)) as int
}

/// The number of information requests, as `NBD_OPT_INFO` or `NBD_OPT_GO`
/// data states it.
pub open spec fn data_info_count(p: Seq<u8>) -> nat {
    be_value(p.subrange(4 + data_name_len(p), 6 + data_name_len(p)))
}

/// `NBD_OPT_INFO` or `NBD_OPT_GO` data that holds the name and every
/// request its header fields announce (bytes after them are ignored).
pub open spec fn info_data_well_formed(p: Seq<u8>) -> bool {
    &&& p.len() >= 4
    &&& p.len() >= 6 + data_name_len(p)
    &&& p.len() >= 6 + data_name_len(p) + 2 * data_info_count(p)
}

/// The name that `NBD_OPT_INFO` or `NBD_OPT_GO` data carries.
pub open spec fn data_name(p: Seq<u8>) -> Seq<u8> {
    p.subrange(4, 4 + data_name_len(p))
}

/// The `k`-th 16-bit information request of `NBD_OPT_INFO` or `NBD_OPT_GO`
/// data.
pub open spec fn data_info_code(p: Seq<u8>, k: int) -> u16 {
    let base = 6 + data_name_len(p);
    be_value(p.subrange(base + 2 * k, base + 2 * k + 2)) as u16
}

/// The first `k` information requests of the data, keeping those whose type
/// the protocol defines, in order; a server must ignore the others.
pub open spec fn known_info_requests(p: Seq<u8>, k: nat) -> Seq<NBDInfoType>
    decreases k,
{
    if k == 0 {
        Seq::empty()
    } else {
        let prev = known_info_requests(p, (k - 1) as nat);
        match NBDInfoType::spec_from_value(data_info_code(p, k - 1)) {
            Some(t) => prev.push(t),
            None => prev,
        }
    }
}

/// The information requests that `NBD_OPT_INFO` or `NBD_OPT_GO` data carries.
pub open spec fn data_infos(p: Seq<u8>) -> Seq<NBDInfoType> {
    known_info_requests(p, data_info_count(p))
}

/// The option data that decoding accepts, for an option of type `option`:
/// any data for `NBD_OPT_EXPORT_NAME` (it is the name) and for
/// `NBD_OPT_ABORT` (a server ignores it), none for `NBD_OPT_LIST` and
/// `NBD_OPT_STRUCTURED_REPLY`, well-formed data for `NBD_OPT_INFO` and
/// `NBD_OPT_GO`; the other options have no representation and are not decoded.
pub open spec fn spec_payload_accepted(option: OptionType, p: Seq<u8>) -> bool {
    match option {
        OptionType::NBD_OPT_EXPORT_NAME | OptionType::NBD_OPT_ABORT => true,
        OptionType::NBD_OPT_LIST | OptionType::NBD_OPT_STRUCTURED_REPLY => p.len() == 0,
        OptionType::NBD_OPT_INFO | OptionType::NBD_OPT_GO => info_data_well_formed(p),
        _ => false,
    }
}

/// Whether `opt` is what decoding option `option` with data `p` yields.
pub open spec fn decodes_to(option: OptionType, p: Seq<u8>, opt: OptionHaggle) -> bool {
    match option {
        OptionType::NBD_OPT_EXPORT_NAME => opt matches OptionHaggle::ExportName(name) && name@
            == p,
        OptionType::NBD_OPT_ABORT => opt is Abort,
        OptionType::NBD_OPT_LIST => opt is List,
        OptionType::NBD_OPT_STRUCTURED_REPLY => opt is StructuredReply,
        OptionType::NBD_OPT_INFO => opt matches OptionHaggle::Info(name, infos) && name@
            == data_name(p) && infos@ == data_infos(p),
        OptionType::NBD_OPT_GO => opt matches OptionHaggle::Go(name, infos) && name@ == data_name(
            p,
        ) && infos@ == data_infos(p),
        _ => false,
    }
}

/// What decoding an option header (its magic number and option number) gives.
pub open spec fn spec_decode_option_header(magic: u64, option: u32) -> Result<OptionType, NbdError> {
    if magic != NBD_OPT_MAGIC {
        Err(NbdError::BadOptionMagic(magic))
    } else {
        match OptionType::spec_from_value(option) {
            Some(t) => Ok(t),
            None => Err(NbdError::UnknownOption(option)),
        }
    }
}

impl OptionHaggle {
    /// The option type of the option.
    pub open spec fn spec_option_type(&self) -> OptionType {
        match self {
            OptionHaggle::ExportName(_) => OptionType::NBD_OPT_EXPORT_NAME,
            OptionHaggle::Abort => OptionType::NBD_OPT_ABORT,
            OptionHaggle::List => OptionType::NBD_OPT_LIST,
            OptionHaggle::Info(_, _) => OptionType::NBD_OPT_INFO,
            OptionHaggle::Go(_, _) => OptionType::NBD_OPT_GO,
            OptionHaggle::StructuredReply => OptionType::NBD_OPT_STRUCTURED_REPLY,
        }
    }

    /// The data of the option, after its header.
    pub open spec fn spec_data(&self) -> Seq<u8> {
        match self {
            OptionHaggle::ExportName(name) => name@,
            OptionHaggle::Info(name, infos) => info_request_data(name@, infos@),
            OptionHaggle::Go(name, infos) => info_request_data(name@, infos@),
            _ => Seq::empty(),
        }
    }

    /// The value of the length field of the option's header.
    pub open spec fn spec_length_field(&self) -> u32 {
        match self {
            OptionHaggle::ExportName(name) => name.len() as u32,
            OptionHaggle::Info(name, infos) => (4 + name.len() + 2 + 2 * infos.len()) as u32,
            OptionHaggle::Go(name, infos) => (4 + name.len() + 2 + 2 * infos.len()) as u32,
            _ => 0,
        }
    }

    /// The bytes of the option on the wire.
    pub open spec fn spec_wire(&self) -> Seq<u8> {
        be64(NBD_OPT_MAGIC) + be32(self.spec_option_type().spec_value()) + be32(
            self.spec_length_field(),
        ) + self.spec_data()
    }

    /// The option type of the option.
    pub fn option_type(&self) -> (t: OptionType)
        ensures
            t == self.spec_option_type(),
    {
        match self {
            OptionHaggle::ExportName(_) => OptionType::NBD_OPT_EXPORT_NAME,
            OptionHaggle::Abort => OptionType::NBD_OPT_ABORT,
            OptionHaggle::List => OptionType::NBD_OPT_LIST,
            OptionHaggle::Info(_, _) => OptionType::NBD_OPT_INFO,
            OptionHaggle::Go(_, _) => OptionType::NBD_OPT_GO,
            OptionHaggle::StructuredReply => OptionType::NBD_OPT_STRUCTURED_REPLY,
        }
    }

    /// Serializes the option: `IHAVEOPT`, the option number, the length of
    /// the data, then the data, every number in network byte order (the
    /// information requests of `NBD_OPT_INFO` and `NBD_OPT_GO` as 16-bit types).
    pub fn to_nbd_bytes(self) -> (b: Bytes)
        requires
            fits_buffer(self.spec_wire().len()),
        ensures
            bytes_view(b) == self.spec_wire(),
    {
        let ghost wire = self.spec_wire();
        proof {
            lemma_be_bytes_len(NBD_OPT_MAGIC as nat, 8);
            lemma_be_bytes_len(self.spec_option_type().spec_value() as nat, 4);
            lemma_be_bytes_len(self.spec_length_field() as nat, 4);
        }
        let mut buf = buf_with_capacity(20);
        buf_put_u64(&mut buf, NBD_OPT_MAGIC);
        match self {
            OptionHaggle::ExportName(name) => {
                buf_put_u32(&mut buf, OptionType::NBD_OPT_EXPORT_NAME.value());
                buf_put_u32(&mut buf, name.len() as u32);
                buf_put_slice(&mut buf, name.as_slice());
            },
            OptionHaggle::Abort => {
                buf_put_u32(&mut buf, OptionType::NBD_OPT_ABORT.value());
                buf_put_u32(&mut buf, 0);
            },
            OptionHaggle::List => {
                buf_put_u32(&mut buf, OptionType::NBD_OPT_LIST.value());
                buf_put_u32(&mut buf, 0);
            },
            OptionHaggle::Info(name, infos) => {
                buf_put_u32(&mut buf, OptionType::NBD_OPT_INFO.value());
                put_info_request(&mut buf, &name, &infos);
            },
            OptionHaggle::Go(name, infos) => {
                buf_put_u32(&mut buf, OptionType::NBD_OPT_GO.value());
                put_info_request(&mut buf, &name, &infos);
            },
            OptionHaggle::StructuredReply => {
                buf_put_u32(&mut buf, OptionType::NBD_OPT_STRUCTURED_REPLY.value());
                buf_put_u32(&mut buf, 0);
            },
        }
        assert(bytes_mut_view(buf) =~= wire);
        buf_freeze(buf)
    }

    /// Decodes the header of an option: the magic number must be
    /// `NBD_OPT_MAGIC` and the option number one the protocol defines.
    pub fn decode_header(magic: u64, option: u32) -> (r: Result<OptionType, NbdError>)
        ensures
            r == spec_decode_option_header(magic, option),
    {
        if magic != NBD_OPT_MAGIC {
            return Err(NbdError::BadOptionMagic(magic));
        }
        match OptionType::try_from_primitive(option) {
            Some(t) => Ok(t),
            None => Err(NbdError::UnknownOption(option)),
        }
    }

    /// Whether `decode_data` accepts the data `data` for an option of type
    /// `option` (see `spec_payload_accepted`).
    pub fn payload_accepted(option: OptionType, data: &BytesMut) -> (b: bool)
        ensures
            b == spec_payload_accepted(option, bytes_mut_view(*data)),
    {
        let s = buf_as_slice(data);
        match option {
            OptionType::NBD_OPT_EXPORT_NAME | OptionType::NBD_OPT_ABORT => true,
            OptionType::NBD_OPT_LIST | OptionType::NBD_OPT_STRUCTURED_REPLY => s.len() == 0,
            OptionType::NBD_OPT_INFO | OptionType::NBD_OPT_GO => {
                if s.len() < 4 {
                    return false;
                }
                let name_len = read_be32(s, 0) as usize;
                if s.len() - 4 < name_len || s.len() - 4 - name_len < 2 {
                    return false;
                }
                let count = read_be16(s, 4 + name_len) as usize;
                s.len() - 6 - name_len >= 2 * count
            },
            _ => false,
        }
    }

    /// Decodes the data of an option whose header was decoded to `option`.
    /// An information request of a type the protocol does not define is
    /// left out, as the protocol requires a server to ignore it.
    pub fn decode_data(option: OptionType, data: BytesMut) -> (opt: OptionHaggle)
        requires
            spec_payload_accepted(option, bytes_mut_view(data)),
        ensures
            decodes_to(option, bytes_mut_view(data), opt),
    {
        match option {
            OptionType::NBD_OPT_EXPORT_NAME => {
                let name = vstd::slice::slice_to_vec(buf_as_slice(&data));
                OptionHaggle::ExportName(name)
            },
            OptionType::NBD_OPT_ABORT => OptionHaggle::Abort,
            OptionType::NBD_OPT_LIST => OptionHaggle::List,
            OptionType::NBD_OPT_STRUCTURED_REPLY => OptionHaggle::StructuredReply,
            OptionType::NBD_OPT_INFO => {
                let (name, infos) = decode_info_request(data);
                OptionHaggle::Info(name, infos)
            },
            _ => {
                let (name, infos) = decode_info_request(data);
                OptionHaggle::Go(name, infos)
            },
        }
    }
}

/// Appends the length field and the data of `NBD_OPT_INFO` or `NBD_OPT_GO`.
fn put_info_request(buf: &mut BytesMut, name: &Vec<u8>, infos: &Vec<NBDInfoType>)
    requires
        fits_buffer(bytes_mut_view(*old(buf)).len() + 4 + info_request_data(name@, infos@).len()),
    ensures
        bytes_mut_view(*final(buf)) == bytes_mut_view(*old(buf)) + be32(
            (4 + name.len() + 2 + 2 * infos.len()) as u32,
        ) + info_request_data(name@, infos@),
{
    let ghost start = bytes_mut_view(*buf);
    proof {
        lemma_info_request_data_len(name@, infos@);
        lemma_be_bytes_len((4 + name.len() + 2 + 2 * infos.len()) as u32 as nat, 4);
    }
    buf_put_u32(buf, (4 + name.len() + 2 + 2 * infos.len()) as u32);
    assert(bytes_mut_view(*buf).len() == start.len() + 4);
    buf_put_u32(buf, name.len() as u32);
    assert(bytes_mut_view(*buf).len() == start.len() + 8);
    buf_put_slice(buf, name.as_slice());
    assert(bytes_mut_view(*buf).len() == start.len() + 8 + name.len());
    buf_put_u16(buf, infos.len() as u16);
    let ghost before_codes = bytes_mut_view(*buf);
    let mut i: usize = 0;
    while i < infos.len()
        invariant
            0 <= i <= infos.len(),
            before_codes.len() + 2 * infos.len() <= isize::MAX,
            bytes_mut_view(*buf) == before_codes + info_codes(infos@.take(i as int)),
        decreases infos.len() - i,
    {
        proof {
            lemma_info_codes_len(infos@.take(i as int));
            let t = infos@.take(i as int + 1);
            assert(t.drop_last() =~= infos@.take(i as int));
        }
        buf_put_u16(buf, infos[i].value());
        i = i + 1;
        assert(bytes_mut_view(*buf) =~= before_codes + info_codes(infos@.take(i as int)));
    }
    assert(infos@.take(infos.len() as int) =~= infos@);
    assert(bytes_mut_view(*buf) =~= start + be32((4 + name.len() + 2 + 2 * infos.len()) as u32)
        + info_request_data(name@, infos@));
}

/// Reads the name and the information requests out of well-formed
/// `NBD_OPT_INFO` or `NBD_OPT_GO` data.
fn decode_info_request(data: BytesMut) -> (r: (Vec<u8>, Vec<NBDInfoType>))
    requires
        info_data_well_formed(bytes_mut_view(data)),
    ensures
        r.0@ == data_name(bytes_mut_view(data)),
        r.1@ == data_infos(bytes_mut_view(data)),
{
    let ghost p = bytes_mut_view(data);
    let mut buf = data;
    let name_len32 = buf_get_u32(&mut buf);
    assert(p.take(4) =~= p.subrange(0, 4));
    let name_len = name_len32 as usize;
    assert(bytes_mut_view(buf) =~= p.skip(4));
    let name = vstd::slice::slice_to_vec(&buf_as_slice(&buf)[0..name_len]);
    assert(name@ =~= data_name(p));
    buf_advance(&mut buf, name_len);
    assert(bytes_mut_view(buf) =~= p.skip(4 + name_len));
    assert(p.skip(4 + name_len).take(2) =~= p.subrange(4 + name_len, 6 + name_len));
    let info_count = buf_get_u16(&mut buf);
    let ghost base = 6 + name_len;
    assert(bytes_mut_view(buf) =~= p.skip(base));
    let mut infos: Vec<NBDInfoType> = Vec::new();
    let mut k: u16 = 0;
    while k < info_count
        invariant
            0 <= k <= info_count,
            info_count == data_info_count(p),
            name_len == data_name_len(p),
            base == 6 + name_len,
            info_data_well_formed(p),
            bytes_mut_view(buf) == p.skip(base + 2 * k),
            infos@ == known_info_requests(p, k as nat),
        decreases info_count - k,
    {
        let ghost before = bytes_mut_view(buf);
        assert(before.take(2) =~= p.subrange(base + 2 * k, base + 2 * k + 2));
        let code = buf_get_u16(&mut buf);
        assert(code == data_info_code(p, k as int));
        match NBDInfoType::try_from_primitive(code) {
            Some(t) => infos.push(t),
            None => {},
        }
        k = k + 1;
        assert(bytes_mut_view(buf) =~= p.skip(base + 2 * k));
    }
    (name, infos)
}

proof fn lemma_info_codes_len(infos: Seq<NBDInfoType>)
    ensures
        info_codes(infos).len() == 2 * infos.len(),
    decreases infos.len(),
{
    if infos.len() > 0 {
        lemma_info_codes_len(infos.drop_last());
        lemma_be_bytes_len(infos.last().spec_value() as nat, 2);
    }
}

proof fn lemma_info_request_data_len(name: Seq<u8>, infos: Seq<NBDInfoType>)
    ensures
        info_request_data(name, infos).len() == 4 + name.len() + 2 + 2 * infos.len(),
{
    lemma_info_codes_len(infos);
    lemma_be_bytes_len(name.len() as u32 as nat, 4);
    lemma_be_bytes_len(infos.len() as u16 as nat, 2);
}


impl From<OptionHaggle> for OptionType {
    fn from(value: OptionHaggle) -> (t: OptionType) {
        value.option_type()
    }
}

impl FromSpecImpl<OptionHaggle> for OptionType {
    open spec fn obeys_from_spec() -> bool {
        true
    }

    open spec fn from_spec(v: OptionHaggle) -> OptionType {
        v.spec_option_type()
    }
}

/// What an option reply carries after the option it answers.
#[derive(Clone, Debug, PartialEq, Eq)]
pub enum OptionReplyContent {
    /// No reply chosen yet; it is sent as `NBD_REP_ERR_UNSUP` with the
    /// message "internal error".
    NoReply,
    /// `NBD_REP_ACK`.
    ACK,
    /// `NBD_REP_SERVER`, with the name of an export.
    Server(String),
    /// `NBD_REP_INFO`, with an information item.
    Info(NBDInfo),
    /// `NBD_REP_ERR_UNSUP`, with an optional message.
    Unsupport(Option<String>),
    /// `NBD_REP_ERR_INVALID`, with an optional message.
    Invalid(Option<String>),
}

/// The message sent when no reply was chosen.
pub open spec fn internal_error_message() -> Seq<char> {
    "internal error"@
}

/// The UTF-8 bytes of an optional message, with their 32-bit length first;
/// only a zero length for no message.
pub open spec fn optional_message(msg: Option<String>) -> Seq<u8> {
    match msg {
        Some(m) => be32(encode_utf8(m@).len() as u32) + encode_utf8(m@),
        None => be32(0),
    }
}

/// The reply type, the 32-bit data length and the data of a reply.
pub open spec fn reply_body(reply: OptionReplyContent) -> Seq<u8> {
    match reply {
        OptionReplyContent::NoReply => be32(OptionReplyType::NBD_REP_ERR_UNSUP.spec_value()) + be32(
            encode_utf8(internal_error_message()).len() as u32,
        ) + encode_utf8(internal_error_message()),
        OptionReplyContent::ACK => be32(OptionReplyType::NBD_REP_ACK.spec_value()) + be32(0),
        OptionReplyContent::Server(name) => be32(OptionReplyType::NBD_REP_SERVER.spec_value())
            + be32((4 + encode_utf8(name@).len()) as u32) + be32(encode_utf8(name@).len() as u32)
            + encode_utf8(name@),
        OptionReplyContent::Info(info) => be32(OptionReplyType::NBD_REP_INFO.spec_value()) + be32(
            info.spec_wire().len() as u32,
        ) + info.spec_wire(),
        OptionReplyContent::Unsupport(msg) => be32(OptionReplyType::NBD_REP_ERR_UNSUP.spec_value())
            + optional_message(msg),
        OptionReplyContent::Invalid(msg) => be32(
            OptionReplyType::NBD_REP_ERR_INVALID.spec_value(),
        ) + optional_message(msg),
    }
}

/// A reply of the server to an option: `NBD_OPT_REP_MAGIC`, the option it
/// answers, the reply type, the length of the data, then the data.
#[derive(Clone, Debug)]
pub struct OptionHaggleRep {
    client_option: u32,
    reply: OptionReplyContent,
}

impl OptionHaggleRep {
    /// The number of the option this reply answers.
    pub closed spec fn spec_client_option(&self) -> u32 {
        self.client_option
    }

    /// What the reply carries.
    pub closed spec fn spec_reply(&self) -> OptionReplyContent {
        self.reply
    }

    /// The bytes of the reply on the wire.
    pub open spec fn spec_wire(&self) -> Seq<u8> {
        be64(NBD_OPT_REP_MAGIC) + be32(self.spec_client_option()) + reply_body(
            self.spec_reply(),
        )
    }

    /// A reply to `client_option` whose content is not chosen yet.
    pub fn with_option(client_option: OptionType) -> (rep: Self)
        ensures
            rep.spec_client_option() == client_option.spec_value(),
            rep.spec_reply() == OptionReplyContent::NoReply,
    {
        OptionHaggleRep { client_option: client_option.value(), reply: OptionReplyContent::NoReply }
    }

    /// A reply, whose content is not chosen yet, to the option numbered
    /// `option`, which may be a number the protocol does not define.
    pub fn with_option_number(option: u32) -> (rep: Self)
        ensures
            rep.spec_client_option() == option,
            rep.spec_reply() == OptionReplyContent::NoReply,
    {
        OptionHaggleRep { client_option: option, reply: OptionReplyContent::NoReply }
    }

    /// Makes the reply `NBD_REP_ACK`.
    pub fn ack(&mut self)
        ensures
            final(self).spec_client_option() == old(self).spec_client_option(),
            final(self).spec_reply() == OptionReplyContent::ACK,
    {
        self.reply = OptionReplyContent::ACK;
    }

    /// Makes the reply `NBD_REP_SERVER` with the export name `name`.
    pub fn server(&mut self, name: String)
        ensures
            final(self).spec_client_option() == old(self).spec_client_option(),
            final(self).spec_reply() == OptionReplyContent::Server(name),
    {
        self.reply = OptionReplyContent::Server(name);
    }

    /// Makes the reply `NBD_REP_INFO` with the item `info`.
    pub fn info(&mut self, info: NBDInfo)
        ensures
            final(self).spec_client_option() == old(self).spec_client_option(),
            final(self).spec_reply() == OptionReplyContent::Info(info),
    {
        self.reply = OptionReplyContent::Info(info);
    }

    /// Makes the reply `NBD_REP_ERR_UNSUP` without a message.
    pub fn unsupport(&mut self)
        ensures
            final(self).spec_client_option() == old(self).spec_client_option(),
            final(self).spec_reply() == OptionReplyContent::Unsupport(None),
    {
        self.reply = OptionReplyContent::Unsupport(None);
    }

    /// Makes the reply `NBD_REP_ERR_INVALID` without a message.
    pub fn invalid(&mut self)
        ensures
            final(self).spec_client_option() == old(self).spec_client_option(),
            final(self).spec_reply() == OptionReplyContent::Invalid(None),
    {
        self.reply = OptionReplyContent::Invalid(None);
    }

    /// Makes the reply `NBD_REP_ERR_UNSUP` with the message `err`.
    pub fn unsupport_with_msg(&mut self, err: String)
        ensures
            final(self).spec_client_option() == old(self).spec_client_option(),
            final(self).spec_reply() == OptionReplyContent::Unsupport(Some(err)),
    {
        self.reply = OptionReplyContent::Unsupport(Some(err));
    }

    /// Serializes the reply, every number in network byte order and every
    /// text as its UTF-8 bytes.
    pub fn to_nbd_bytes(self) -> (b: Bytes)
        requires
            fits_buffer(self.spec_wire().len()),
        ensures
            bytes_view(b) == self.spec_wire(),
    {
        let ghost wire = self.spec_wire();
        let mut buf = buf_with_capacity(20);
        buf_put_u64(&mut buf, NBD_OPT_REP_MAGIC);
        buf_put_u32(&mut buf, self.client_option);
        match self.reply {
            OptionReplyContent::ACK => {
                buf_put_u32(&mut buf, OptionReplyType::NBD_REP_ACK.value());
                buf_put_u32(&mut buf, 0);
            },
            OptionReplyContent::Server(server_name) => {
                buf_put_u32(&mut buf, OptionReplyType::NBD_REP_SERVER.value());
                let name = server_name.as_str().as_bytes();
                buf_put_u32(&mut buf, (4 + name.len()) as u32);
                buf_put_u32(&mut buf, name.len() as u32);
                buf_put_slice(&mut buf, name);
            },
            OptionReplyContent::Info(info) => {
                buf_put_u32(&mut buf, OptionReplyType::NBD_REP_INFO.value());
                let info = info.to_nbd_bytes();
                let info = bytes_as_slice(&info);
                buf_put_u32(&mut buf, info.len() as u32);
                buf_put_slice(&mut buf, info);
            },
            OptionReplyContent::Unsupport(msg) => {
                buf_put_u32(&mut buf, OptionReplyType::NBD_REP_ERR_UNSUP.value());
                match msg {
                    Some(msg) => {
                        let msg = msg.as_str().as_bytes();
                        buf_put_u32(&mut buf, msg.len() as u32);
                        buf_put_slice(&mut buf, msg);
                    },
                    None => {
                        buf_put_u32(&mut buf, 0);
                    },
                }
            },
            OptionReplyContent::Invalid(msg) => {
                buf_put_u32(&mut buf, OptionReplyType::NBD_REP_ERR_INVALID.value());
                match msg {
                    Some(msg) => {
                        let msg = msg.as_str().as_bytes();
                        buf_put_u32(&mut buf, msg.len() as u32);
                        buf_put_slice(&mut buf, msg);
                    },
                    None => {
                        buf_put_u32(&mut buf, 0);
                    },
                }
            },
            OptionReplyContent::NoReply => {
                let info = "internal error";
                buf_put_u32(&mut buf, OptionReplyType::NBD_REP_ERR_UNSUP.value());
                buf_put_u32(&mut buf, info.as_bytes().len() as u32);
                buf_put_slice(&mut buf, info.as_bytes());
            },
        }
        assert(bytes_mut_view(buf) =~= wire);
        buf_freeze(buf)
    }
}

/// The `j`-th request of an encoded list of information requests is the
/// encoding of the `j`-th type.
proof fn lemma_info_codes_index(infos: Seq<NBDInfoType>, j: int)
    requires
        0 <= j < infos.len(),
    ensures
        info_codes(infos).subrange(2 * j, 2 * j + 2) == be16(infos[j].spec_value()),
    decreases infos.len(),
{
    lemma_info_codes_len(infos);
    lemma_info_codes_len(infos.drop_last());
    if j < infos.len() - 1 {
        lemma_info_codes_index(infos.drop_last(), j);
        assert(info_codes(infos).subrange(2 * j, 2 * j + 2) =~= info_codes(
            infos.drop_last(),
        ).subrange(2 * j, 2 * j + 2));
    } else {
        assert(info_codes(infos).subrange(2 * j, 2 * j + 2) =~= be16(infos[j].spec_value()));
    }
}

/// Requests whose codes are those of known types are all kept, in order.
proof fn lemma_known_prefix(p: Seq<u8>, infos: Seq<NBDInfoType>, j: nat)
    requires
        j <= infos.len(),
        forall|i: int| 0 <= i < infos.len() ==> data_info_code(p, i) == #[trigger] infos[i].spec_value(),
    ensures
        known_info_requests(p, j) == infos.take(j as int),
    decreases j,
{
    if j > 0 {
        lemma_known_prefix(p, infos, (j - 1) as nat);
        assert(data_info_code(p, j - 1) == infos[j - 1].spec_value());
        assert(infos.take(j as int) =~= infos.take(j - 1).push(infos[j - 1]));
    }
}

/// Decoding the data of `NBD_OPT_INFO` or `NBD_OPT_GO` gives back the name
/// and the requests it was encoded from.
proof fn lemma_info_request_data_roundtrip(name: Seq<u8>, infos: Seq<NBDInfoType>)
    requires
        4 + name.len() + 2 + 2 * infos.len() <= u32::MAX,
        infos.len() <= u16::MAX,
    ensures
        info_data_well_formed(info_request_data(name, infos)),
        data_name(info_request_data(name, infos)) == name,
        data_infos(info_request_data(name, infos)) == infos,
{
    let p = info_request_data(name, infos);
    let n = name.len();
    let k = infos.len();
    lemma_info_request_data_len(name, infos);
    lemma_info_codes_len(infos);
    lemma_be_fixed_roundtrip(k as u16, n as u32, 0);
    assert(p.subrange(0, 4) =~= be32(n as u32));
    assert(data_name_len(p) == n);
    assert(p.subrange(4, 4 + n as int) =~= name);
    assert(p.subrange(4 + n as int, 6 + n as int) =~= be16(k as u16));
    assert(data_info_count(p) == k);
    let codes = info_codes(infos);
    assert forall|j: int| 0 <= j < k implies data_info_code(p, j) == #[trigger] infos[j].spec_value() by {
        lemma_info_codes_index(infos, j);
        assert(p.subrange(6 + n + 2 * j, 6 + n + 2 * j + 2) =~= codes.subrange(2 * j, 2 * j + 2));
        lemma_be_fixed_roundtrip(infos[j].spec_value(), 0, 0);
    }
    lemma_known_prefix(p, infos, k);
    assert(infos.take(k as int) =~= infos);
}

/// Every option that fits its length fields is decoded back from its own
/// serialization: its header carries `IHAVEOPT`, its option number and the
/// length of its data, and decoding that data gives back the option.
pub proof fn lemma_option_roundtrip(opt: OptionHaggle)
    requires
        opt matches OptionHaggle::ExportName(name) ==> name.len() <= u32::MAX,
        opt matches OptionHaggle::Info(name, infos) ==> 4 + name.len() + 2 + 2 * infos.len()
            <= u32::MAX && infos.len() <= u16::MAX,
        opt matches OptionHaggle::Go(name, infos) ==> 4 + name.len() + 2 + 2 * infos.len()
            <= u32::MAX && infos.len() <= u16::MAX,
    ensures
        ({
            let w = opt.spec_wire();
            &&& w.len() == 16 + opt.spec_data().len()
            &&& w.skip(16) == opt.spec_data()
            &&& spec_decode_option_header(
                be_value(w.subrange(0, 8)) as u64,
                be_value(w.subrange(8, 12)) as u32,
            ) == Ok::<OptionType, NbdError>(opt.spec_option_type())
            &&& be_value(w.subrange(12, 16)) == opt.spec_data().len()
            &&& spec_payload_accepted(opt.spec_option_type(), w.skip(16))
            &&& decodes_to(opt.spec_option_type(), w.skip(16), opt)
        }),
{
    let w = opt.spec_wire();
    let t = opt.spec_option_type();
    lemma_be_fixed_roundtrip(0, t.spec_value(), NBD_OPT_MAGIC);
    lemma_be_fixed_roundtrip(0, opt.spec_length_field(), 0);
    assert(w.subrange(0, 8) =~= be64(NBD_OPT_MAGIC));
    assert(w.subrange(8, 12) =~= be32(t.spec_value()));
    assert(w.subrange(12, 16) =~= be32(opt.spec_length_field()));
    assert(w.skip(16) =~= opt.spec_data());
    match opt {
        OptionHaggle::Info(name, infos) => {
            lemma_info_request_data_len(name@, infos@);
            lemma_info_request_data_roundtrip(name@, infos@);
        },
        OptionHaggle::Go(name, infos) => {
            lemma_info_request_data_len(name@, infos@);
            lemma_info_request_data_roundtrip(name@, infos@);
        },
        _ => {},
    }
}

/// Every option reply starts with `NBD_OPT_REP_MAGIC` and the option it
/// answers, and the 32-bit length field after its reply type counts exactly
/// the bytes that follow it (when that count fits in 32 bits).
pub proof fn lemma_reply_length_field(rep: OptionHaggleRep)
    requires
        rep.spec_wire().len() <= 20 + u32::MAX,
    ensures
        rep.spec_wire().len() >= 20,
        be_value(rep.spec_wire().subrange(0, 8)) == NBD_OPT_REP_MAGIC,
        be_value(rep.spec_wire().subrange(8, 12)) == rep.spec_client_option(),
        be_value(rep.spec_wire().subrange(16, 20)) == rep.spec_wire().len() - 20,
{
    let w = rep.spec_wire();
    let body = reply_body(rep.spec_reply());
    lemma_be_fixed_roundtrip(0, rep.spec_client_option(), NBD_OPT_REP_MAGIC);
    assert(w.subrange(0, 8) =~= be64(NBD_OPT_REP_MAGIC));
    assert(w.subrange(8, 12) =~= be32(rep.spec_client_option()));
    assert(w.subrange(16, 20) =~= body.subrange(4, 8));
    let len: u32 = match rep.spec_reply() {
        OptionReplyContent::NoReply => encode_utf8(internal_error_message()).len() as u32,
        OptionReplyContent::ACK => 0,
        OptionReplyContent::Server(name) => (4 + encode_utf8(name@).len()) as u32,
        OptionReplyContent::Info(info) => info.spec_wire().len() as u32,
        OptionReplyContent::Unsupport(msg) => match msg {
            Some(m) => encode_utf8(m@).len() as u32,
            None => 0,
        },
        OptionReplyContent::Invalid(msg) => match msg {
            Some(m) => encode_utf8(m@).len() as u32,
            None => 0,
        },
    };
    lemma_be_fixed_roundtrip(0, len, 0);
    assert(body.subrange(4, 8) =~= be32(len));
}

/// The reply type and the data of every option reply, by its content: the
/// reply type sits in bytes 12..16 (`NBD_REP_ACK` = 1, `NBD_REP_SERVER` = 2,
/// `NBD_REP_INFO` = 3, `NBD_REP_ERR_UNSUP` = 2^31 + 1, `NBD_REP_ERR_INVALID`
/// = 2^31 + 3), and all the data follows the 20-byte header: nothing for an
/// acknowledgement or an error without message, the 32-bit name length and
/// the name for a server, the whole item for an information reply, the whole
/// message for an error with a message.
pub proof fn lemma_reply_layout(rep: OptionHaggleRep)
    ensures
        ({
            let w = rep.spec_wire();
            let data = w.skip(20);
            &&& w.len() >= 20
            &&& match rep.spec_reply() {
                OptionReplyContent::ACK => be_value(w.subrange(12, 16)) == 1 && data.len() == 0,
                OptionReplyContent::Server(name) => be_value(w.subrange(12, 16)) == 2 && data
                    == be32(encode_utf8(name@).len() as u32) + encode_utf8(name@),
                OptionReplyContent::Info(info) => be_value(w.subrange(12, 16)) == 3 && data
                    == info.spec_wire(),
                OptionReplyContent::Unsupport(msg) => be_value(w.subrange(12, 16)) == 0x8000_0001
                    && data == match msg {
                    Some(m) => encode_utf8(m@),
                    None => Seq::<u8>::empty(),
                },
                OptionReplyContent::Invalid(msg) => be_value(w.subrange(12, 16)) == 0x8000_0003
                    && data == match msg {
                    Some(m) => encode_utf8(m@),
                    None => Seq::<u8>::empty(),
                },
                OptionReplyContent::NoReply => be_value(w.subrange(12, 16)) == 0x8000_0001
                    && data == encode_utf8(internal_error_message()),
            }
        }),
{
    let w = rep.spec_wire();
    let body = reply_body(rep.spec_reply());
    assert(w.subrange(12, 16) =~= body.subrange(0, 4));
    assert(w.skip(20) =~= body.skip(8));
    let code: u32 = match rep.spec_reply() {
        OptionReplyContent::ACK => 1,
        OptionReplyContent::Server(_) => 2,
        OptionReplyContent::Info(_) => 3,
        OptionReplyContent::Invalid(_) => 0x8000_0003,
        _ => 0x8000_0001,
    };
    lemma_be_fixed_roundtrip(0, code, 0);
    assert(body.subrange(0, 4) =~= be32(code));
    match rep.spec_reply() {
        OptionReplyContent::Server(name) => {
            assert(body.skip(8) =~= be32(encode_utf8(name@).len() as u32) + encode_utf8(name@));
        },
        OptionReplyContent::Info(info) => {
            assert(body.skip(8) =~= info.spec_wire());
        },
        OptionReplyContent::Unsupport(msg) => {
            assert(body.skip(8) =~= match msg {
                Some(m) => encode_utf8(m@),
                None => Seq::<u8>::empty(),
            });
        },
        OptionReplyContent::Invalid(msg) => {
            assert(body.skip(8) =~= match msg {
                Some(m) => encode_utf8(m@),
                None => Seq::<u8>::empty(),
            });
        },
        OptionReplyContent::NoReply => {
            assert(body.skip(8) =~= encode_utf8(internal_error_message()));
        },
        OptionReplyContent::ACK => {},
    }
}

} // verus!
