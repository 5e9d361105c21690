//! The constants of the NBD protocol: magic numbers, flags, option and
//! reply types, request types and error values, each with the number that
//! stands for it on the wire and the way back from that number.
use vstd::prelude::*;

verus! {

/// `NBDMAGIC` in ASCII: the first eight bytes the server sends.
pub const NBD_MAGIC: u64 = 0x4e42_444d_4147_4943;
/// `IHAVEOPT` in ASCII: starts the server's greeting and every option.
pub const NBD_OPT_MAGIC: u64 = 0x4948_4156_454f_5054;
/// Starts every option reply.
pub const NBD_OPT_REP_MAGIC: u64 = 0x3e88_9045_565a9;
/// Starts every transmission request.
pub const NBD_REQUEST_MAGIC: u32 = 0x2560_9513;
/// Starts every simple reply.
pub const NBD_SIMPLE_REPLY_MAGIC: u32 = 0x6744_6698;
/// Starts every structured reply chunk.
pub const NBD_STRUCTURED_REPLY_MAGIC: u32 = 0x668e_33ef;

/// A set of handshake flags (`HandshakeFlag` values or-ed together).
pub type HandshakeFlags = u16;
/// A set of client flags (`ClientFlag` values or-ed together).
pub type ClientFlags = u32;
/// A set of transmission flags (`TransmissionFlag` values or-ed together).
pub type TransmissionFlags = u16;
/// A set of command flags (`CommandFlag` values or-ed together).
pub type CommandFlags = u16;

/// A handshake flag, sent by the server right after the two magic numbers.
#[derive(Clone, Copy, Debug, PartialEq, Eq, Structural)]
pub enum HandshakeFlag {
    NBD_FLAG_FIXED_NEWSTYLE,
    NBD_FLAG_NO_ZEROES,
}

impl HandshakeFlag {
    /// The number that stands for this value on the wire.
    pub open spec fn spec_value(self) -> u16 {
        match self {
            HandshakeFlag::NBD_FLAG_FIXED_NEWSTYLE => 0x01,
            HandshakeFlag::NBD_FLAG_NO_ZEROES => 0x02,
        }
    }

    /// The value a number stands for, if it stands for one.
    pub open spec fn spec_from_value(v: u16) -> Option<HandshakeFlag> {
        if v == 0x01 {
            Some(HandshakeFlag::NBD_FLAG_FIXED_NEWSTYLE)
        } else if v == 0x02 {
            Some(HandshakeFlag::NBD_FLAG_NO_ZEROES)
        } else {
            None
        }
    }

    /// The number that stands for this value on the wire; that number
    /// leads back to this value.
    pub fn value(self) -> (v: u16)
        ensures
            v == self.spec_value(),
            HandshakeFlag::spec_from_value(v) == Some(self),
    {
        match self {
            HandshakeFlag::NBD_FLAG_FIXED_NEWSTYLE => 0x01,
            HandshakeFlag::NBD_FLAG_NO_ZEROES => 0x02,
        }
    }

    /// The value a number stands for; `None` when it stands for none.
    pub fn try_from_primitive(v: u16) -> (r: Option<HandshakeFlag>)
        ensures
            r == HandshakeFlag::spec_from_value(v),
            r matches Some(x) ==> x.spec_value() == v,
    {
        if v == 0x01 {
            Some(HandshakeFlag::NBD_FLAG_FIXED_NEWSTYLE)
        } else if v == 0x02 {
            Some(HandshakeFlag::NBD_FLAG_NO_ZEROES)
        } else {
            None
        }
    }
}

/// A client flag, sent by the client in answer to the handshake flags.
#[derive(Clone, Copy, Debug, PartialEq, Eq, Structural)]
pub enum ClientFlag {
    NBD_FLAG_C_FIXED_NEWSTYLE,
    NBD_FLAG_C_NO_ZEROES,
}

impl ClientFlag {
    /// The number that stands for this value on the wire.
    pub open spec fn spec_value(self) -> u32 {
        match self {
            ClientFlag::NBD_FLAG_C_FIXED_NEWSTYLE => 0x01,
            ClientFlag::NBD_FLAG_C_NO_ZEROES => 0x02,
        }
    }

    /// The value a number stands for, if it stands for one.
    pub open spec fn spec_from_value(v: u32) -> Option<ClientFlag> {
        if v == 0x01 {
            Some(ClientFlag::NBD_FLAG_C_FIXED_NEWSTYLE)
        } else if v == 0x02 {
            Some(ClientFlag::NBD_FLAG_C_NO_ZEROES)
        } else {
            None
        }
    }

    /// The number that stands for this value on the wire; that number
    /// leads back to this value.
    pub fn value(self) -> (v: u32)
        ensures
            v == self.spec_value(),
            ClientFlag::spec_from_value(v) == Some(self),
    {
        match self {
            ClientFlag::NBD_FLAG_C_FIXED_NEWSTYLE => 0x01,
            ClientFlag::NBD_FLAG_C_NO_ZEROES => 0x02,
        }
    }

    /// The value a number stands for; `None` when it stands for none.
    pub fn try_from_primitive(v: u32) -> (r: Option<ClientFlag>)
        ensures
            r == ClientFlag::spec_from_value(v),
            r matches Some(x) ==> x.spec_value() == v,
    {
        if v == 0x01 {
            Some(ClientFlag::NBD_FLAG_C_FIXED_NEWSTYLE)
        } else if v == 0x02 {
            Some(ClientFlag::NBD_FLAG_C_NO_ZEROES)
        } else {
            None
        }
    }
}

/// A transmission flag: a feature of an export that the server exposes.
#[derive(Clone, Copy, Debug, PartialEq, Eq, Structural)]
pub enum TransmissionFlag {
    NBD_FLAG_HAS_FLAGS,
    NBD_FLAG_READ_ONLY,
    NBD_FLAG_SEND_FLUSH,
    NBD_FLAG_SEND_FUA,
    NBD_FLAG_ROTATIONAL,
    NBD_FLAG_SEND_TRIM,
    NBD_FLAG_SEND_WRITE_ZEROES,
    NBD_FLAG_SEND_DF,
    NBD_FLAG_CAN_MULTI_CONN,
    NBD_FLAG_SEND_RESIZE,
    NBD_FLAG_SEND_CACHE,
    NBD_FLAG_SEND_FAST_ZERO,
}

impl TransmissionFlag {
    /// The number that stands for this value on the wire.
    pub open spec fn spec_value(self) -> u16 {
        match self {
            TransmissionFlag::NBD_FLAG_HAS_FLAGS => 0x0001,
            TransmissionFlag::NBD_FLAG_READ_ONLY => 0x0002,
            TransmissionFlag::NBD_FLAG_SEND_FLUSH => 0x0004,
            TransmissionFlag::NBD_FLAG_SEND_FUA => 0x0008,
            TransmissionFlag::NBD_FLAG_ROTATIONAL => 0x0010,
            TransmissionFlag::NBD_FLAG_SEND_TRIM => 0x0020,
            TransmissionFlag::NBD_FLAG_SEND_WRITE_ZEROES => 0x0040,
            TransmissionFlag::NBD_FLAG_SEND_DF => 0x0080,
            TransmissionFlag::NBD_FLAG_CAN_MULTI_CONN => 0x0100,
            TransmissionFlag::NBD_FLAG_SEND_RESIZE => 0x0200,
            TransmissionFlag::NBD_FLAG_SEND_CACHE => 0x0400,
            TransmissionFlag::NBD_FLAG_SEND_FAST_ZERO => 0x0800,
        }
    }

    /// The value a number stands for, if it stands for one.
    pub open spec fn spec_from_value(v: u16) -> Option<TransmissionFlag> {
        if v == 0x0001 {
            Some(TransmissionFlag::NBD_FLAG_HAS_FLAGS)
        } else if v == 0x0002 {
            Some(TransmissionFlag::NBD_FLAG_READ_ONLY)
        } else if v == 0x0004 {
            Some(TransmissionFlag::NBD_FLAG_SEND_FLUSH)
        } else if v == 0x0008 {
            Some(TransmissionFlag::NBD_FLAG_SEND_FUA)
        } else if v == 0x0010 {
            Some(TransmissionFlag::NBD_FLAG_ROTATIONAL)
        } else if v == 0x0020 {
            Some(TransmissionFlag::NBD_FLAG_SEND_TRIM)
        } else if v == 0x0040 {
            Some(TransmissionFlag::NBD_FLAG_SEND_WRITE_ZEROES)
        } else if v == 0x0080 {
            Some(TransmissionFlag::NBD_FLAG_SEND_DF)
        } else if v == 0x0100 {
            Some(TransmissionFlag::NBD_FLAG_CAN_MULTI_CONN)
        } else if v == 0x0200 {
            Some(TransmissionFlag::NBD_FLAG_SEND_RESIZE)
        } else if v == 0x0400 {
            Some(TransmissionFlag::NBD_FLAG_SEND_CACHE)
        } else if v == 0x0800 {
            Some(TransmissionFlag::NBD_FLAG_SEND_FAST_ZERO)
        } else {
            None
        }
    }

    /// The number that stands for this value on the wire; that number
    /// leads back to this value.
    pub fn value(self) -> (v: u16)
        ensures
            v == self.spec_value(),
            TransmissionFlag::spec_from_value(v) == Some(self),
    {
        match self {
            TransmissionFlag::NBD_FLAG_HAS_FLAGS => 0x0001,
            TransmissionFlag::NBD_FLAG_READ_ONLY => 0x0002,
            TransmissionFlag::NBD_FLAG_SEND_FLUSH => 0x0004,
            TransmissionFlag::NBD_FLAG_SEND_FUA => 0x0008,
            TransmissionFlag::NBD_FLAG_ROTATIONAL => 0x0010,
            TransmissionFlag::NBD_FLAG_SEND_TRIM => 0x0020,
            TransmissionFlag::NBD_FLAG_SEND_WRITE_ZEROES => 0x0040,
            TransmissionFlag::NBD_FLAG_SEND_DF => 0x0080,
            TransmissionFlag::NBD_FLAG_CAN_MULTI_CONN => 0x0100,
            TransmissionFlag::NBD_FLAG_SEND_RESIZE => 0x0200,
            TransmissionFlag::NBD_FLAG_SEND_CACHE => 0x0400,
            TransmissionFlag::NBD_FLAG_SEND_FAST_ZERO => 0x0800,
        }
    }

    /// The value a number stands for; `None` when it stands for none.
    pub fn try_from_primitive(v: u16) -> (r: Option<TransmissionFlag>)
        ensures
            r == TransmissionFlag::spec_from_value(v),
            r matches Some(x) ==> x.spec_value() == v,
    {
        if v == 0x0001 {
            Some(TransmissionFlag::NBD_FLAG_HAS_FLAGS)
        } else if v == 0x0002 {
            Some(TransmissionFlag::NBD_FLAG_READ_ONLY)
        } else if v == 0x0004 {
            Some(TransmissionFlag::NBD_FLAG_SEND_FLUSH)
        } else if v == 0x0008 {
            Some(TransmissionFlag::NBD_FLAG_SEND_FUA)
        } else if v == 0x0010 {
            Some(TransmissionFlag::NBD_FLAG_ROTATIONAL)
        } else if v == 0x0020 {
            Some(TransmissionFlag::NBD_FLAG_SEND_TRIM)
        } else if v == 0x0040 {
            Some(TransmissionFlag::NBD_FLAG_SEND_WRITE_ZEROES)
        } else if v == 0x0080 {
            Some(TransmissionFlag::NBD_FLAG_SEND_DF)
        } else if v == 0x0100 {
            Some(TransmissionFlag::NBD_FLAG_CAN_MULTI_CONN)
        } else if v == 0x0200 {
            Some(TransmissionFlag::NBD_FLAG_SEND_RESIZE)
        } else if v == 0x0400 {
            Some(TransmissionFlag::NBD_FLAG_SEND_CACHE)
        } else if v == 0x0800 {
            Some(TransmissionFlag::NBD_FLAG_SEND_FAST_ZERO)
        } else {
            None
        }
    }
}

/// An option that the client sends while haggling options.
#[derive(Clone, Copy, Debug, PartialEq, Eq, Structural)]
pub enum OptionType {
    NBD_OPT_EXPORT_NAME,
    NBD_OPT_ABORT,
    NBD_OPT_LIST,
    NBD_OPT_PEEK_EXPORT,
    NBD_OPT_STARTTLS,
    NBD_OPT_INFO,
    NBD_OPT_GO,
    NBD_OPT_STRUCTURED_REPLY,
    NBD_OPT_LIST_META_CONTEXT,
    NBD_OPT_SET_META_CONTEXT,
}

impl OptionType {
    /// The number that stands for this value on the wire.
    pub open spec fn spec_value(self) -> u32 {
        match self {
            OptionType::NBD_OPT_EXPORT_NAME => 1,
            OptionType::NBD_OPT_ABORT => 2,
            OptionType::NBD_OPT_LIST => 3,
            OptionType::NBD_OPT_PEEK_EXPORT => 4,
            OptionType::NBD_OPT_STARTTLS => 5,
            OptionType::NBD_OPT_INFO => 6,
            OptionType::NBD_OPT_GO => 7,
            OptionType::NBD_OPT_STRUCTURED_REPLY => 8,
            OptionType::NBD_OPT_LIST_META_CONTEXT => 9,
            OptionType::NBD_OPT_SET_META_CONTEXT => 10,
        }
    }

    /// The value a number stands for, if it stands for one.
    pub open spec fn spec_from_value(v: u32) -> Option<OptionType> {
        if v == 1 {
            Some(OptionType::NBD_OPT_EXPORT_NAME)
        } else if v == 2 {
            Some(OptionType::NBD_OPT_ABORT)
        } else if v == 3 {
            Some(OptionType::NBD_OPT_LIST)
        } else if v == 4 {
            Some(OptionType::NBD_OPT_PEEK_EXPORT)
        } else if v == 5 {
            Some(OptionType::NBD_OPT_STARTTLS)
        } else if v == 6 {
            Some(OptionType::NBD_OPT_INFO)
        } else if v == 7 {
            Some(OptionType::NBD_OPT_GO)
        } else if v == 8 {
            Some(OptionType::NBD_OPT_STRUCTURED_REPLY)
        } else if v == 9 {
            Some(OptionType::NBD_OPT_LIST_META_CONTEXT)
        } else if v == 10 {
            Some(OptionType::NBD_OPT_SET_META_CONTEXT)
        } else {
            None
        }
    }

    /// The number that stands for this value on the wire; that number
    /// leads back to this value.
    pub fn value(self) -> (v: u32)
        ensures
            v == self.spec_value(),
            OptionType::spec_from_value(v) == Some(self),
    {
        match self {
            OptionType::NBD_OPT_EXPORT_NAME => 1,
            OptionType::NBD_OPT_ABORT => 2,
            OptionType::NBD_OPT_LIST => 3,
            OptionType::NBD_OPT_PEEK_EXPORT => 4,
            OptionType::NBD_OPT_STARTTLS => 5,
            OptionType::NBD_OPT_INFO => 6,
            OptionType::NBD_OPT_GO => 7,
            OptionType::NBD_OPT_STRUCTURED_REPLY => 8,
            OptionType::NBD_OPT_LIST_META_CONTEXT => 9,
            OptionType::NBD_OPT_SET_META_CONTEXT => 10,
        }
    }

    /// The value a number stands for; `None` when it stands for none.
    pub fn try_from_primitive(v: u32) -> (r: Option<OptionType>)
        ensures
            r == OptionType::spec_from_value(v),
            r matches Some(x) ==> x.spec_value() == v,
    {
        if v == 1 {
            Some(OptionType::NBD_OPT_EXPORT_NAME)
        } else if v == 2 {
            Some(OptionType::NBD_OPT_ABORT)
        } else if v == 3 {
            Some(OptionType::NBD_OPT_LIST)
        } else if v == 4 {
            Some(OptionType::NBD_OPT_PEEK_EXPORT)
        } else if v == 5 {
            Some(OptionType::NBD_OPT_STARTTLS)
        } else if v == 6 {
            Some(OptionType::NBD_OPT_INFO)
        } else if v == 7 {
            Some(OptionType::NBD_OPT_GO)
        } else if v == 8 {
            Some(OptionType::NBD_OPT_STRUCTURED_REPLY)
        } else if v == 9 {
            Some(OptionType::NBD_OPT_LIST_META_CONTEXT)
        } else if v == 10 {
            Some(OptionType::NBD_OPT_SET_META_CONTEXT)
        } else {
            None
        }
    }
}

/// The type of an option reply; the error replies have bit 31 set.
#[derive(Clone, Copy, Debug, PartialEq, Eq, Structural)]
pub enum OptionReplyType {
    NBD_REP_ACK,
    NBD_REP_SERVER,
    NBD_REP_INFO,
    NBD_REP_META_CONTEXT,
    NBD_REP_ERR_UNSUP,
    NBD_REP_ERR_POLICY,
    NBD_REP_ERR_INVALID,
    NBD_REP_ERR_PLATFORM,
    NBD_REP_ERR_TLS_REQD,
    NBD_REP_ERR_UNKNOWN,
    NBD_REP_ERR_SHUTDOWN,
    NBD_REP_ERR_BLOCK_SIZE_REQD,
    NBD_REP_ERR_TOO_BIG,
}

impl OptionReplyType {
    /// The number that stands for this value on the wire.
    pub open spec fn spec_value(self) -> u32 {
        match self {
            OptionReplyType::NBD_REP_ACK => 1,
            OptionReplyType::NBD_REP_SERVER => 2,
            OptionReplyType::NBD_REP_INFO => 3,
            OptionReplyType::NBD_REP_META_CONTEXT => 4,
            OptionReplyType::NBD_REP_ERR_UNSUP => 0x8000_0001,
            OptionReplyType::NBD_REP_ERR_POLICY => 0x8000_0002,
            OptionReplyType::NBD_REP_ERR_INVALID => 0x8000_0003,
            OptionReplyType::NBD_REP_ERR_PLATFORM => 0x8000_0004,
            OptionReplyType::NBD_REP_ERR_TLS_REQD => 0x8000_0005,
            OptionReplyType::NBD_REP_ERR_UNKNOWN => 0x8000_0006,
            OptionReplyType::NBD_REP_ERR_SHUTDOWN => 0x8000_0007,
            OptionReplyType::NBD_REP_ERR_BLOCK_SIZE_REQD => 0x8000_0008,
            OptionReplyType::NBD_REP_ERR_TOO_BIG => 0x8000_0009,
        }
    }

    /// The value a number stands for, if it stands for one.
    pub open spec fn spec_from_value(v: u32) -> Option<OptionReplyType> {
        if v == 1 {
            Some(OptionReplyType::NBD_REP_ACK)
        } else if v == 2 {
            Some(OptionReplyType::NBD_REP_SERVER)
        } else if v == 3 {
            Some(OptionReplyType::NBD_REP_INFO)
        } else if v == 4 {
            Some(OptionReplyType::NBD_REP_META_CONTEXT)
        } else if v == 0x8000_0001 {
            Some(OptionReplyType::NBD_REP_ERR_UNSUP)
        } else if v == 0x8000_0002 {
            Some(OptionReplyType::NBD_REP_ERR_POLICY)
        } else if v == 0x8000_0003 {
            Some(OptionReplyType::NBD_REP_ERR_INVALID)
        } else if v == 0x8000_0004 {
            Some(OptionReplyType::NBD_REP_ERR_PLATFORM)
        } else if v == 0x8000_0005 {
            Some(OptionReplyType::NBD_REP_ERR_TLS_REQD)
        } else if v == 0x8000_0006 {
            Some(OptionReplyType::NBD_REP_ERR_UNKNOWN)
        } else if v == 0x8000_0007 {
            Some(OptionReplyType::NBD_REP_ERR_SHUTDOWN)
        } else if v == 0x8000_0008 {
            Some(OptionReplyType::NBD_REP_ERR_BLOCK_SIZE_REQD)
        } else if v == 0x8000_0009 {
            Some(OptionReplyType::NBD_REP_ERR_TOO_BIG)
        } else {
            None
        }
    }

    /// The number that stands for this value on the wire; that number
    /// leads back to this value.
    pub fn value(self) -> (v: u32)
        ensures
            v == self.spec_value(),
            OptionReplyType::spec_from_value(v) == Some(self),
    {
        match self {
            OptionReplyType::NBD_REP_ACK => 1,
            OptionReplyType::NBD_REP_SERVER => 2,
            OptionReplyType::NBD_REP_INFO => 3,
            OptionReplyType::NBD_REP_META_CONTEXT => 4,
            OptionReplyType::NBD_REP_ERR_UNSUP => 0x8000_0001,
            OptionReplyType::NBD_REP_ERR_POLICY => 0x8000_0002,
            OptionReplyType::NBD_REP_ERR_INVALID => 0x8000_0003,
            OptionReplyType::NBD_REP_ERR_PLATFORM => 0x8000_0004,
            OptionReplyType::NBD_REP_ERR_TLS_REQD => 0x8000_0005,
            OptionReplyType::NBD_REP_ERR_UNKNOWN => 0x8000_0006,
            OptionReplyType::NBD_REP_ERR_SHUTDOWN => 0x8000_0007,
            OptionReplyType::NBD_REP_ERR_BLOCK_SIZE_REQD => 0x8000_0008,
            OptionReplyType::NBD_REP_ERR_TOO_BIG => 0x8000_0009,
        }
    }

    /// The value a number stands for; `None` when it stands for none.
    pub fn try_from_primitive(v: u32) -> (r: Option<OptionReplyType>)
        ensures
            r == OptionReplyType::spec_from_value(v),
            r matches Some(x) ==> x.spec_value() == v,
    {
        if v == 1 {
            Some(OptionReplyType::NBD_REP_ACK)
        } else if v == 2 {
            Some(OptionReplyType::NBD_REP_SERVER)
        } else if v == 3 {
            Some(OptionReplyType::NBD_REP_INFO)
        } else if v == 4 {
            Some(OptionReplyType::NBD_REP_META_CONTEXT)
        } else if v == 0x8000_0001 {
            Some(OptionReplyType::NBD_REP_ERR_UNSUP)
        } else if v == 0x8000_0002 {
            Some(OptionReplyType::NBD_REP_ERR_POLICY)
        } else if v == 0x8000_0003 {
            Some(OptionReplyType::NBD_REP_ERR_INVALID)
        } else if v == 0x8000_0004 {
            Some(OptionReplyType::NBD_REP_ERR_PLATFORM)
        } else if v == 0x8000_0005 {
            Some(OptionReplyType::NBD_REP_ERR_TLS_REQD)
        } else if v == 0x8000_0006 {
            Some(OptionReplyType::NBD_REP_ERR_UNKNOWN)
        } else if v == 0x8000_0007 {
            Some(OptionReplyType::NBD_REP_ERR_SHUTDOWN)
        } else if v == 0x8000_0008 {
            Some(OptionReplyType::NBD_REP_ERR_BLOCK_SIZE_REQD)
        } else if v == 0x8000_0009 {
            Some(OptionReplyType::NBD_REP_ERR_TOO_BIG)
        } else {
            None
        }
    }
}

/// The type of an information item, requested by `NBD_OPT_INFO` and `NBD_OPT_GO` and answered by `NBD_REP_INFO`.
#[derive(Clone, Copy, Debug, PartialEq, Eq, Structural)]
pub enum NBDInfoType {
    NBD_INFO_EXPORT,
    NBD_INFO_NAME,
    NBD_INFO_DESCRIPTION,
    NBD_INFO_BLOCK_SIZE,
}

impl NBDInfoType {
    /// The number that stands for this value on the wire.
    pub open spec fn spec_value(self) -> u16 {
        match self {
            NBDInfoType::NBD_INFO_EXPORT => 0,
            NBDInfoType::NBD_INFO_NAME => 1,
            NBDInfoType::NBD_INFO_DESCRIPTION => 2,
            NBDInfoType::NBD_INFO_BLOCK_SIZE => 3,
        }
    }

    /// The value a number stands for, if it stands for one.
    pub open spec fn spec_from_value(v: u16) -> Option<NBDInfoType> {
        if v == 0 {
            Some(NBDInfoType::NBD_INFO_EXPORT)
        } else if v == 1 {
            Some(NBDInfoType::NBD_INFO_NAME)
        } else if v == 2 {
            Some(NBDInfoType::NBD_INFO_DESCRIPTION)
        } else if v == 3 {
            Some(NBDInfoType::NBD_INFO_BLOCK_SIZE)
        } else {
            None
        }
    }

    /// The number that stands for this value on the wire; that number
    /// leads back to this value.
    pub fn value(self) -> (v: u16)
        ensures
            v == self.spec_value(),
            NBDInfoType::spec_from_value(v) == Some(self),
    {
        match self {
            NBDInfoType::NBD_INFO_EXPORT => 0,
            NBDInfoType::NBD_INFO_NAME => 1,
            NBDInfoType::NBD_INFO_DESCRIPTION => 2,
            NBDInfoType::NBD_INFO_BLOCK_SIZE => 3,
        }
    }

    /// The value a number stands for; `None` when it stands for none.
    pub fn try_from_primitive(v: u16) -> (r: Option<NBDInfoType>)
        ensures
            r == NBDInfoType::spec_from_value(v),
            r matches Some(x) ==> x.spec_value() == v,
    {
        if v == 0 {
            Some(NBDInfoType::NBD_INFO_EXPORT)
        } else if v == 1 {
            Some(NBDInfoType::NBD_INFO_NAME)
        } else if v == 2 {
            Some(NBDInfoType::NBD_INFO_DESCRIPTION)
        } else if v == 3 {
            Some(NBDInfoType::NBD_INFO_BLOCK_SIZE)
        } else {
            None
        }
    }
}

/// A command flag, sent by the client with each request.
#[derive(Clone, Copy, Debug, PartialEq, Eq, Structural)]
pub enum CommandFlag {
    NBD_CMD_FLAG_FUA,
    NBD_CMD_FLAG_NO_HOLE,
    NBD_CMD_FLAG_DF,
    NBD_CMD_FLAG_REQ_ONE,
    NBD_CMD_FLAG_FAST_ZERO,
}

impl CommandFlag {
    /// The number that stands for this value on the wire.
    pub open spec fn spec_value(self) -> u16 {
        match self {
            CommandFlag::NBD_CMD_FLAG_FUA => 0x01,
            CommandFlag::NBD_CMD_FLAG_NO_HOLE => 0x02,
            CommandFlag::NBD_CMD_FLAG_DF => 0x04,
            CommandFlag::NBD_CMD_FLAG_REQ_ONE => 0x08,
            CommandFlag::NBD_CMD_FLAG_FAST_ZERO => 0x10,
        }
    }

    /// The value a number stands for, if it stands for one.
    pub open spec fn spec_from_value(v: u16) -> Option<CommandFlag> {
        if v == 0x01 {
            Some(CommandFlag::NBD_CMD_FLAG_FUA)
        } else if v == 0x02 {
            Some(CommandFlag::NBD_CMD_FLAG_NO_HOLE)
        } else if v == 0x04 {
            Some(CommandFlag::NBD_CMD_FLAG_DF)
        } else if v == 0x08 {
            Some(CommandFlag::NBD_CMD_FLAG_REQ_ONE)
        } else if v == 0x10 {
            Some(CommandFlag::NBD_CMD_FLAG_FAST_ZERO)
        } else {
            None
        }
    }

    /// The number that stands for this value on the wire; that number
    /// leads back to this value.
    pub fn value(self) -> (v: u16)
        ensures
            v == self.spec_value(),
            CommandFlag::spec_from_value(v) == Some(self),
    {
        match self {
            CommandFlag::NBD_CMD_FLAG_FUA => 0x01,
            CommandFlag::NBD_CMD_FLAG_NO_HOLE => 0x02,
            CommandFlag::NBD_CMD_FLAG_DF => 0x04,
            CommandFlag::NBD_CMD_FLAG_REQ_ONE => 0x08,
            CommandFlag::NBD_CMD_FLAG_FAST_ZERO => 0x10,
        }
    }

    /// The value a number stands for; `None` when it stands for none.
    pub fn try_from_primitive(v: u16) -> (r: Option<CommandFlag>)
        ensures
            r == CommandFlag::spec_from_value(v),
            r matches Some(x) ==> x.spec_value() == v,
    {
        if v == 0x01 {
            Some(CommandFlag::NBD_CMD_FLAG_FUA)
        } else if v == 0x02 {
            Some(CommandFlag::NBD_CMD_FLAG_NO_HOLE)
        } else if v == 0x04 {
            Some(CommandFlag::NBD_CMD_FLAG_DF)
        } else if v == 0x08 {
            Some(CommandFlag::NBD_CMD_FLAG_REQ_ONE)
        } else if v == 0x10 {
            Some(CommandFlag::NBD_CMD_FLAG_FAST_ZERO)
        } else {
            None
        }
    }
}

/// A flag of a structured reply chunk.
#[derive(Clone, Copy, Debug, PartialEq, Eq, Structural)]
pub enum StructuredReplyFlag {
    NBD_REPLY_FLAG_DONE,
}

impl StructuredReplyFlag {
    /// The number that stands for this value on the wire.
    pub open spec fn spec_value(self) -> u16 {
        match self {
            StructuredReplyFlag::NBD_REPLY_FLAG_DONE => 0x01,
        }
    }

    /// The value a number stands for, if it stands for one.
    pub open spec fn spec_from_value(v: u16) -> Option<StructuredReplyFlag> {
        if v == 0x01 {
            Some(StructuredReplyFlag::NBD_REPLY_FLAG_DONE)
        } else {
            None
        }
    }

    /// The number that stands for this value on the wire; that number
    /// leads back to this value.
    pub fn value(self) -> (v: u16)
        ensures
            v == self.spec_value(),
            StructuredReplyFlag::spec_from_value(v) == Some(self),
    {
        match self {
            StructuredReplyFlag::NBD_REPLY_FLAG_DONE => 0x01,
        }
    }

    /// The value a number stands for; `None` when it stands for none.
    pub fn try_from_primitive(v: u16) -> (r: Option<StructuredReplyFlag>)
        ensures
            r == StructuredReplyFlag::spec_from_value(v),
            r matches Some(x) ==> x.spec_value() == v,
    {
        if v == 0x01 {
            Some(StructuredReplyFlag::NBD_REPLY_FLAG_DONE)
        } else {
            None
        }
    }
}

/// The type of a structured reply chunk; the error chunks have bit 15 set.
#[derive(Clone, Copy, Debug, PartialEq, Eq, Structural)]
pub enum StucturedReplyType {
    NBD_REPLY_TYPE_NONE,
    NBD_REPLY_TYPE_OFFSET_DATA,
    NBD_REPLY_TYPE_OFFSET_HOLE,
    NBD_REPLY_TYPE_BLOCK_STATUS,
    NBD_REPLY_TYPE_ERROR,
    NBD_REPLY_TYPE_ERROR_OFFSET,
}

impl StucturedReplyType {
    /// The number that stands for this value on the wire.
    pub open spec fn spec_value(self) -> u32 {
        match self {
            StucturedReplyType::NBD_REPLY_TYPE_NONE => 0,
            StucturedReplyType::NBD_REPLY_TYPE_OFFSET_DATA => 1,
            StucturedReplyType::NBD_REPLY_TYPE_OFFSET_HOLE => 2,
            StucturedReplyType::NBD_REPLY_TYPE_BLOCK_STATUS => 5,
            StucturedReplyType::NBD_REPLY_TYPE_ERROR => 0x8001,
            StucturedReplyType::NBD_REPLY_TYPE_ERROR_OFFSET => 0x8002,
        }
    }

    /// The value a number stands for, if it stands for one.
    pub open spec fn spec_from_value(v: u32) -> Option<StucturedReplyType> {
        if v == 0 {
            Some(StucturedReplyType::NBD_REPLY_TYPE_NONE)
        } else if v == 1 {
            Some(StucturedReplyType::NBD_REPLY_TYPE_OFFSET_DATA)
        } else if v == 2 {
            Some(StucturedReplyType::NBD_REPLY_TYPE_OFFSET_HOLE)
        } else if v == 5 {
            Some(StucturedReplyType::NBD_REPLY_TYPE_BLOCK_STATUS)
        } else if v == 0x8001 {
            Some(StucturedReplyType::NBD_REPLY_TYPE_ERROR)
        } else if v == 0x8002 {
            Some(StucturedReplyType::NBD_REPLY_TYPE_ERROR_OFFSET)
        } else {
            None
        }
    }

    /// The number that stands for this value on the wire; that number
    /// leads back to this value.
    pub fn value(self) -> (v: u32)
        ensures
            v == self.spec_value(),
            StucturedReplyType::spec_from_value(v) == Some(self),
    {
        match self {
            StucturedReplyType::NBD_REPLY_TYPE_NONE => 0,
            StucturedReplyType::NBD_REPLY_TYPE_OFFSET_DATA => 1,
            StucturedReplyType::NBD_REPLY_TYPE_OFFSET_HOLE => 2,
            StucturedReplyType::NBD_REPLY_TYPE_BLOCK_STATUS => 5,
            StucturedReplyType::NBD_REPLY_TYPE_ERROR => 0x8001,
            StucturedReplyType::NBD_REPLY_TYPE_ERROR_OFFSET => 0x8002,
        }
    }

    /// The value a number stands for; `None` when it stands for none.
    pub fn try_from_primitive(v: u32) -> (r: Option<StucturedReplyType>)
        ensures
            r == StucturedReplyType::spec_from_value(v),
            r matches Some(x) ==> x.spec_value() == v,
    {
        if v == 0 {
            Some(StucturedReplyType::NBD_REPLY_TYPE_NONE)
        } else if v == 1 {
            Some(StucturedReplyType::NBD_REPLY_TYPE_OFFSET_DATA)
        } else if v == 2 {
            Some(StucturedReplyType::NBD_REPLY_TYPE_OFFSET_HOLE)
        } else if v == 5 {
            Some(StucturedReplyType::NBD_REPLY_TYPE_BLOCK_STATUS)
        } else if v == 0x8001 {
            Some(StucturedReplyType::NBD_REPLY_TYPE_ERROR)
        } else if v == 0x8002 {
            Some(StucturedReplyType::NBD_REPLY_TYPE_ERROR_OFFSET)
        } else {
            None
        }
    }
}

/// The type of a transmission request.
#[derive(Clone, Copy, Debug, PartialEq, Eq, Structural)]
pub enum RequestType {
    NBD_CMD_READ,
    NBD_CMD_WRITE,
    NBD_CMD_DISC,
    NBD_CMD_FLUSH,
    NBD_CMD_TRIM,
    NBD_CMD_CACHE,
    NBD_CMD_WRITE_ZEROES,
    NBD_CMD_BLOCK_STATUS,
    NBD_CMD_RESIZE,
    NBD_CMD_OTHER_REQUESTS,
}

impl RequestType {
    /// The number that stands for this value on the wire.
    pub open spec fn spec_value(self) -> u16 {
        match self {
            RequestType::NBD_CMD_READ => 0,
            RequestType::NBD_CMD_WRITE => 1,
            RequestType::NBD_CMD_DISC => 2,
            RequestType::NBD_CMD_FLUSH => 3,
            RequestType::NBD_CMD_TRIM => 4,
            RequestType::NBD_CMD_CACHE => 5,
            RequestType::NBD_CMD_WRITE_ZEROES => 6,
            RequestType::NBD_CMD_BLOCK_STATUS => 7,
            RequestType::NBD_CMD_RESIZE => 8,
            RequestType::NBD_CMD_OTHER_REQUESTS => 9,
        }
    }

    /// The value a number stands for, if it stands for one.
    pub open spec fn spec_from_value(v: u16) -> Option<RequestType> {
        if v == 0 {
            Some(RequestType::NBD_CMD_READ)
        } else if v == 1 {
            Some(RequestType::NBD_CMD_WRITE)
        } else if v == 2 {
            Some(RequestType::NBD_CMD_DISC)
        } else if v == 3 {
            Some(RequestType::NBD_CMD_FLUSH)
        } else if v == 4 {
            Some(RequestType::NBD_CMD_TRIM)
        } else if v == 5 {
            Some(RequestType::NBD_CMD_CACHE)
        } else if v == 6 {
            Some(RequestType::NBD_CMD_WRITE_ZEROES)
        } else if v == 7 {
            Some(RequestType::NBD_CMD_BLOCK_STATUS)
        } else if v == 8 {
            Some(RequestType::NBD_CMD_RESIZE)
        } else if v == 9 {
            Some(RequestType::NBD_CMD_OTHER_REQUESTS)
        } else {
            None
        }
    }

    /// The number that stands for this value on the wire; that number
    /// leads back to this value.
    pub fn value(self) -> (v: u16)
        ensures
            v == self.spec_value(),
            RequestType::spec_from_value(v) == Some(self),
    {
        match self {
            RequestType::NBD_CMD_READ => 0,
            RequestType::NBD_CMD_WRITE => 1,
            RequestType::NBD_CMD_DISC => 2,
            RequestType::NBD_CMD_FLUSH => 3,
            RequestType::NBD_CMD_TRIM => 4,
            RequestType::NBD_CMD_CACHE => 5,
            RequestType::NBD_CMD_WRITE_ZEROES => 6,
            RequestType::NBD_CMD_BLOCK_STATUS => 7,
            RequestType::NBD_CMD_RESIZE => 8,
            RequestType::NBD_CMD_OTHER_REQUESTS => 9,
        }
    }

    /// The value a number stands for; `None` when it stands for none.
    pub fn try_from_primitive(v: u16) -> (r: Option<RequestType>)
        ensures
            r == RequestType::spec_from_value(v),
            r matches Some(x) ==> x.spec_value() == v,
    {
        if v == 0 {
            Some(RequestType::NBD_CMD_READ)
        } else if v == 1 {
            Some(RequestType::NBD_CMD_WRITE)
        } else if v == 2 {
            Some(RequestType::NBD_CMD_DISC)
        } else if v == 3 {
            Some(RequestType::NBD_CMD_FLUSH)
        } else if v == 4 {
            Some(RequestType::NBD_CMD_TRIM)
        } else if v == 5 {
            Some(RequestType::NBD_CMD_CACHE)
        } else if v == 6 {
            Some(RequestType::NBD_CMD_WRITE_ZEROES)
        } else if v == 7 {
            Some(RequestType::NBD_CMD_BLOCK_STATUS)
        } else if v == 8 {
            Some(RequestType::NBD_CMD_RESIZE)
        } else if v == 9 {
            Some(RequestType::NBD_CMD_OTHER_REQUESTS)
        } else {
            None
        }
    }
}

/// The error field of a reply; zero means success.
#[derive(Clone, Copy, Debug, PartialEq, Eq, Structural)]
pub enum ErrorType {
    NO_ERROR,
    NBD_EPERM,
    NBD_EIO,
    NBD_ENOMEN,
    NBD_EINVAL,
    NBD_ENOSPC,
    NBD_EOVERFLOW,
    NBD_ENOTSUP,
    NBD_ESHUTDOWN,
}

impl ErrorType {
    /// The number that stands for this value on the wire.
    pub open spec fn spec_value(self) -> u32 {
        match self {
            ErrorType::NO_ERROR => 0,
            ErrorType::NBD_EPERM => 1,
            ErrorType::NBD_EIO => 5,
            ErrorType::NBD_ENOMEN => 12,
            ErrorType::NBD_EINVAL => 22,
            ErrorType::NBD_ENOSPC => 28,
            ErrorType::NBD_EOVERFLOW => 75,
            ErrorType::NBD_ENOTSUP => 95,
            ErrorType::NBD_ESHUTDOWN => 108,
        }
    }

    /// The value a number stands for, if it stands for one.
    pub open spec fn spec_from_value(v: u32) -> Option<ErrorType> {
        if v == 0 {
            Some(ErrorType::NO_ERROR)
        } else if v == 1 {
            Some(ErrorType::NBD_EPERM)
        } else if v == 5 {
            Some(ErrorType::NBD_EIO)
        } else if v == 12 {
            Some(ErrorType::NBD_ENOMEN)
        } else if v == 22 {
            Some(ErrorType::NBD_EINVAL)
        } else if v == 28 {
            Some(ErrorType::NBD_ENOSPC)
        } else if v == 75 {
            Some(ErrorType::NBD_EOVERFLOW)
        } else if v == 95 {
            Some(ErrorType::NBD_ENOTSUP)
        } else if v == 108 {
            Some(ErrorType::NBD_ESHUTDOWN)
        } else {
            None
        }
    }

    /// The number that stands for this value on the wire; that number
    /// leads back to this value.
    pub fn value(self) -> (v: u32)
        ensures
            v == self.spec_value(),
            ErrorType::spec_from_value(v) == Some(self),
    {
        match self {
            ErrorType::NO_ERROR => 0,
            ErrorType::NBD_EPERM => 1,
            ErrorType::NBD_EIO => 5,
            ErrorType::NBD_ENOMEN => 12,
            ErrorType::NBD_EINVAL => 22,
            ErrorType::NBD_ENOSPC => 28,
            ErrorType::NBD_EOVERFLOW => 75,
            ErrorType::NBD_ENOTSUP => 95,
            ErrorType::NBD_ESHUTDOWN => 108,
        }
    }

    /// The value a number stands for; `None` when it stands for none.
    pub fn try_from_primitive(v: u32) -> (r: Option<ErrorType>)
        ensures
            r == ErrorType::spec_from_value(v),
            r matches Some(x) ==> x.spec_value() == v,
    {
        if v == 0 {
            Some(ErrorType::NO_ERROR)
        } else if v == 1 {
            Some(ErrorType::NBD_EPERM)
        } else if v == 5 {
            Some(ErrorType::NBD_EIO)
        } else if v == 12 {
            Some(ErrorType::NBD_ENOMEN)
        } else if v == 22 {
            Some(ErrorType::NBD_EINVAL)
        } else if v == 28 {
            Some(ErrorType::NBD_ENOSPC)
        } else if v == 75 {
            Some(ErrorType::NBD_EOVERFLOW)
        } else if v == 95 {
            Some(ErrorType::NBD_ENOTSUP)
        } else if v == 108 {
            Some(ErrorType::NBD_ESHUTDOWN)
        } else {
            None
        }
    }
}

/// The wire numbers of `HandshakeFlag`, as the protocol fixes them; each number
/// leads back to its value.
pub proof fn lemma_handshake_flag_numbers()
    ensures
        HandshakeFlag::NBD_FLAG_FIXED_NEWSTYLE.spec_value() == 0x01,
        HandshakeFlag::spec_from_value(0x01) == Some(HandshakeFlag::NBD_FLAG_FIXED_NEWSTYLE),
        HandshakeFlag::NBD_FLAG_NO_ZEROES.spec_value() == 0x02,
        HandshakeFlag::spec_from_value(0x02) == Some(HandshakeFlag::NBD_FLAG_NO_ZEROES),
{
}

/// The wire numbers of `ClientFlag`, as the protocol fixes them; each number
/// leads back to its value.
pub proof fn lemma_client_flag_numbers()
    ensures
        ClientFlag::NBD_FLAG_C_FIXED_NEWSTYLE.spec_value() == 0x01,
        ClientFlag::spec_from_value(0x01) == Some(ClientFlag::NBD_FLAG_C_FIXED_NEWSTYLE),
        ClientFlag::NBD_FLAG_C_NO_ZEROES.spec_value() == 0x02,
        ClientFlag::spec_from_value(0x02) == Some(ClientFlag::NBD_FLAG_C_NO_ZEROES),
{
}

/// The wire numbers of `TransmissionFlag`, as the protocol fixes them; each number
/// leads back to its value.
pub proof fn lemma_transmission_flag_numbers()
    ensures
        TransmissionFlag::NBD_FLAG_HAS_FLAGS.spec_value() == 0x0001,
        TransmissionFlag::spec_from_value(0x0001) == Some(TransmissionFlag::NBD_FLAG_HAS_FLAGS),
        TransmissionFlag::NBD_FLAG_READ_ONLY.spec_value() == 0x0002,
        TransmissionFlag::spec_from_value(0x0002) == Some(TransmissionFlag::NBD_FLAG_READ_ONLY),
        TransmissionFlag::NBD_FLAG_SEND_FLUSH.spec_value() == 0x0004,
        TransmissionFlag::spec_from_value(0x0004) == Some(TransmissionFlag::NBD_FLAG_SEND_FLUSH),
        TransmissionFlag::NBD_FLAG_SEND_FUA.spec_value() == 0x0008,
        TransmissionFlag::spec_from_value(0x0008) == Some(TransmissionFlag::NBD_FLAG_SEND_FUA),
        TransmissionFlag::NBD_FLAG_ROTATIONAL.spec_value() == 0x0010,
        TransmissionFlag::spec_from_value(0x0010) == Some(TransmissionFlag::NBD_FLAG_ROTATIONAL),
        TransmissionFlag::NBD_FLAG_SEND_TRIM.spec_value() == 0x0020,
        TransmissionFlag::spec_from_value(0x0020) == Some(TransmissionFlag::NBD_FLAG_SEND_TRIM),
        TransmissionFlag::NBD_FLAG_SEND_WRITE_ZEROES.spec_value() == 0x0040,
        TransmissionFlag::spec_from_value(0x0040) == Some(TransmissionFlag::NBD_FLAG_SEND_WRITE_ZEROES),
        TransmissionFlag::NBD_FLAG_SEND_DF.spec_value() == 0x0080,
        TransmissionFlag::spec_from_value(0x0080) == Some(TransmissionFlag::NBD_FLAG_SEND_DF),
        TransmissionFlag::NBD_FLAG_CAN_MULTI_CONN.spec_value() == 0x0100,
        TransmissionFlag::spec_from_value(0x0100) == Some(TransmissionFlag::NBD_FLAG_CAN_MULTI_CONN),
        TransmissionFlag::NBD_FLAG_SEND_RESIZE.spec_value() == 0x0200,
        TransmissionFlag::spec_from_value(0x0200) == Some(TransmissionFlag::NBD_FLAG_SEND_RESIZE),
        TransmissionFlag::NBD_FLAG_SEND_CACHE.spec_value() == 0x0400,
        TransmissionFlag::spec_from_value(0x0400) == Some(TransmissionFlag::NBD_FLAG_SEND_CACHE),
        TransmissionFlag::NBD_FLAG_SEND_FAST_ZERO.spec_value() == 0x0800,
        TransmissionFlag::spec_from_value(0x0800) == Some(TransmissionFlag::NBD_FLAG_SEND_FAST_ZERO),
{
}

/// The wire numbers of `OptionType`, as the protocol fixes them; each number
/// leads back to its value.
pub proof fn lemma_option_type_numbers()
    ensures
        OptionType::NBD_OPT_EXPORT_NAME.spec_value() == 1,
        OptionType::spec_from_value(1) == Some(OptionType::NBD_OPT_EXPORT_NAME),
        OptionType::NBD_OPT_ABORT.spec_value() == 2,
        OptionType::spec_from_value(2) == Some(OptionType::NBD_OPT_ABORT),
        OptionType::NBD_OPT_LIST.spec_value() == 3,
        OptionType::spec_from_value(3) == Some(OptionType::NBD_OPT_LIST),
        OptionType::NBD_OPT_PEEK_EXPORT.spec_value() == 4,
        OptionType::spec_from_value(4) == Some(OptionType::NBD_OPT_PEEK_EXPORT),
        OptionType::NBD_OPT_STARTTLS.spec_value() == 5,
        OptionType::spec_from_value(5) == Some(OptionType::NBD_OPT_STARTTLS),
        OptionType::NBD_OPT_INFO.spec_value() == 6,
        OptionType::spec_from_value(6) == Some(OptionType::NBD_OPT_INFO),
        OptionType::NBD_OPT_GO.spec_value() == 7,
        OptionType::spec_from_value(7) == Some(OptionType::NBD_OPT_GO),
        OptionType::NBD_OPT_STRUCTURED_REPLY.spec_value() == 8,
        OptionType::spec_from_value(8) == Some(OptionType::NBD_OPT_STRUCTURED_REPLY),
        OptionType::NBD_OPT_LIST_META_CONTEXT.spec_value() == 9,
        OptionType::spec_from_value(9) == Some(OptionType::NBD_OPT_LIST_META_CONTEXT),
        OptionType::NBD_OPT_SET_META_CONTEXT.spec_value() == 10,
        OptionType::spec_from_value(10) == Some(OptionType::NBD_OPT_SET_META_CONTEXT),
{
}

/// The wire numbers of `OptionReplyType`, as the protocol fixes them; each number
/// leads back to its value.
pub proof fn lemma_option_reply_type_numbers()
    ensures
        OptionReplyType::NBD_REP_ACK.spec_value() == 1,
        OptionReplyType::spec_from_value(1) == Some(OptionReplyType::NBD_REP_ACK),
        OptionReplyType::NBD_REP_SERVER.spec_value() == 2,
        OptionReplyType::spec_from_value(2) == Some(OptionReplyType::NBD_REP_SERVER),
        OptionReplyType::NBD_REP_INFO.spec_value() == 3,
        OptionReplyType::spec_from_value(3) == Some(OptionReplyType::NBD_REP_INFO),
        OptionReplyType::NBD_REP_META_CONTEXT.spec_value() == 4,
        OptionReplyType::spec_from_value(4) == Some(OptionReplyType::NBD_REP_META_CONTEXT),
        OptionReplyType::NBD_REP_ERR_UNSUP.spec_value() == 0x8000_0001,
        OptionReplyType::spec_from_value(0x8000_0001) == Some(OptionReplyType::NBD_REP_ERR_UNSUP),
        OptionReplyType::NBD_REP_ERR_POLICY.spec_value() == 0x8000_0002,
        OptionReplyType::spec_from_value(0x8000_0002) == Some(OptionReplyType::NBD_REP_ERR_POLICY),
        OptionReplyType::NBD_REP_ERR_INVALID.spec_value() == 0x8000_0003,
        OptionReplyType::spec_from_value(0x8000_0003) == Some(OptionReplyType::NBD_REP_ERR_INVALID),
        OptionReplyType::NBD_REP_ERR_PLATFORM.spec_value() == 0x8000_0004,
        OptionReplyType::spec_from_value(0x8000_0004) == Some(OptionReplyType::NBD_REP_ERR_PLATFORM),
        OptionReplyType::NBD_REP_ERR_TLS_REQD.spec_value() == 0x8000_0005,
        OptionReplyType::spec_from_value(0x8000_0005) == Some(OptionReplyType::NBD_REP_ERR_TLS_REQD),
        OptionReplyType::NBD_REP_ERR_UNKNOWN.spec_value() == 0x8000_0006,
        OptionReplyType::spec_from_value(0x8000_0006) == Some(OptionReplyType::NBD_REP_ERR_UNKNOWN),
        OptionReplyType::NBD_REP_ERR_SHUTDOWN.spec_value() == 0x8000_0007,
        OptionReplyType::spec_from_value(0x8000_0007) == Some(OptionReplyType::NBD_REP_ERR_SHUTDOWN),
        OptionReplyType::NBD_REP_ERR_BLOCK_SIZE_REQD.spec_value() == 0x8000_0008,
        OptionReplyType::spec_from_value(0x8000_0008) == Some(OptionReplyType::NBD_REP_ERR_BLOCK_SIZE_REQD),
        OptionReplyType::NBD_REP_ERR_TOO_BIG.spec_value() == 0x8000_0009,
        OptionReplyType::spec_from_value(0x8000_0009) == Some(OptionReplyType::NBD_REP_ERR_TOO_BIG),
{
}

/// The wire numbers of `NBDInfoType`, as the protocol fixes them; each number
/// leads back to its value.
pub proof fn lemma_nbd_info_type_numbers()
    ensures
        NBDInfoType::NBD_INFO_EXPORT.spec_value() == 0,
        NBDInfoType::spec_from_value(0) == Some(NBDInfoType::NBD_INFO_EXPORT),
        NBDInfoType::NBD_INFO_NAME.spec_value() == 1,
        NBDInfoType::spec_from_value(1) == Some(NBDInfoType::NBD_INFO_NAME),
        NBDInfoType::NBD_INFO_DESCRIPTION.spec_value() == 2,
        NBDInfoType::spec_from_value(2) == Some(NBDInfoType::NBD_INFO_DESCRIPTION),
        NBDInfoType::NBD_INFO_BLOCK_SIZE.spec_value() == 3,
        NBDInfoType::spec_from_value(3) == Some(NBDInfoType::NBD_INFO_BLOCK_SIZE),
{
}

/// The wire numbers of `CommandFlag`, as the protocol fixes them; each number
/// leads back to its value.
pub proof fn lemma_command_flag_numbers()
    ensures
        CommandFlag::NBD_CMD_FLAG_FUA.spec_value() == 0x01,
        CommandFlag::spec_from_value(0x01) == Some(CommandFlag::NBD_CMD_FLAG_FUA),
        CommandFlag::NBD_CMD_FLAG_NO_HOLE.spec_value() == 0x02,
        CommandFlag::spec_from_value(0x02) == Some(CommandFlag::NBD_CMD_FLAG_NO_HOLE),
        CommandFlag::NBD_CMD_FLAG_DF.spec_value() == 0x04,
        CommandFlag::spec_from_value(0x04) == Some(CommandFlag::NBD_CMD_FLAG_DF),
        CommandFlag::NBD_CMD_FLAG_REQ_ONE.spec_value() == 0x08,
        CommandFlag::spec_from_value(0x08) == Some(CommandFlag::NBD_CMD_FLAG_REQ_ONE),
        CommandFlag::NBD_CMD_FLAG_FAST_ZERO.spec_value() == 0x10,
        CommandFlag::spec_from_value(0x10) == Some(CommandFlag::NBD_CMD_FLAG_FAST_ZERO),
{
}

/// The wire numbers of `StructuredReplyFlag`, as the protocol fixes them; each number
/// leads back to its value.
pub proof fn lemma_structured_reply_flag_numbers()
    ensures
        StructuredReplyFlag::NBD_REPLY_FLAG_DONE.spec_value() == 0x01,
        StructuredReplyFlag::spec_from_value(0x01) == Some(StructuredReplyFlag::NBD_REPLY_FLAG_DONE),
{
}

/// The wire numbers of `StucturedReplyType`, as the protocol fixes them; each number
/// leads back to its value.
pub proof fn lemma_stuctured_reply_type_numbers()
    ensures
        StucturedReplyType::NBD_REPLY_TYPE_NONE.spec_value() == 0,
        StucturedReplyType::spec_from_value(0) == Some(StucturedReplyType::NBD_REPLY_TYPE_NONE),
        StucturedReplyType::NBD_REPLY_TYPE_OFFSET_DATA.spec_value() == 1,
        StucturedReplyType::spec_from_value(1) == Some(StucturedReplyType::NBD_REPLY_TYPE_OFFSET_DATA),
        StucturedReplyType::NBD_REPLY_TYPE_OFFSET_HOLE.spec_value() == 2,
        StucturedReplyType::spec_from_value(2) == Some(StucturedReplyType::NBD_REPLY_TYPE_OFFSET_HOLE),
        StucturedReplyType::NBD_REPLY_TYPE_BLOCK_STATUS.spec_value() == 5,
        StucturedReplyType::spec_from_value(5) == Some(StucturedReplyType::NBD_REPLY_TYPE_BLOCK_STATUS),
        StucturedReplyType::NBD_REPLY_TYPE_ERROR.spec_value() == 0x8001,
        StucturedReplyType::spec_from_value(0x8001) == Some(StucturedReplyType::NBD_REPLY_TYPE_ERROR),
        StucturedReplyType::NBD_REPLY_TYPE_ERROR_OFFSET.spec_value() == 0x8002,
        StucturedReplyType::spec_from_value(0x8002) == Some(StucturedReplyType::NBD_REPLY_TYPE_ERROR_OFFSET),
{
}

/// The wire numbers of `RequestType`, as the protocol fixes them; each number
/// leads back to its value.
pub proof fn lemma_request_type_numbers()
    ensures
        RequestType::NBD_CMD_READ.spec_value() == 0,
        RequestType::spec_from_value(0) == Some(RequestType::NBD_CMD_READ),
        RequestType::NBD_CMD_WRITE.spec_value() == 1,
        RequestType::spec_from_value(1) == Some(RequestType::NBD_CMD_WRITE),
        RequestType::NBD_CMD_DISC.spec_value() == 2,
        RequestType::spec_from_value(2) == Some(RequestType::NBD_CMD_DISC),
        RequestType::NBD_CMD_FLUSH.spec_value() == 3,
        RequestType::spec_from_value(3) == Some(RequestType::NBD_CMD_FLUSH),
        RequestType::NBD_CMD_TRIM.spec_value() == 4,
        RequestType::spec_from_value(4) == Some(RequestType::NBD_CMD_TRIM),
        RequestType::NBD_CMD_CACHE.spec_value() == 5,
        RequestType::spec_from_value(5) == Some(RequestType::NBD_CMD_CACHE),
        RequestType::NBD_CMD_WRITE_ZEROES.spec_value() == 6,
        RequestType::spec_from_value(6) == Some(RequestType::NBD_CMD_WRITE_ZEROES),
        RequestType::NBD_CMD_BLOCK_STATUS.spec_value() == 7,
        RequestType::spec_from_value(7) == Some(RequestType::NBD_CMD_BLOCK_STATUS),
        RequestType::NBD_CMD_RESIZE.spec_value() == 8,
        RequestType::spec_from_value(8) == Some(RequestType::NBD_CMD_RESIZE),
        RequestType::NBD_CMD_OTHER_REQUESTS.spec_value() == 9,
        RequestType::spec_from_value(9) == Some(RequestType::NBD_CMD_OTHER_REQUESTS),
{
}

/// The wire numbers of `ErrorType`, as the protocol fixes them; each number
/// leads back to its value.
pub proof fn lemma_error_type_numbers()
    ensures
        ErrorType::NO_ERROR.spec_value() == 0,
        ErrorType::spec_from_value(0) == Some(ErrorType::NO_ERROR),
        ErrorType::NBD_EPERM.spec_value() == 1,
        ErrorType::spec_from_value(1) == Some(ErrorType::NBD_EPERM),
        ErrorType::NBD_EIO.spec_value() == 5,
        ErrorType::spec_from_value(5) == Some(ErrorType::NBD_EIO),
        ErrorType::NBD_ENOMEN.spec_value() == 12,
        ErrorType::spec_from_value(12) == Some(ErrorType::NBD_ENOMEN),
        ErrorType::NBD_EINVAL.spec_value() == 22,
        ErrorType::spec_from_value(22) == Some(ErrorType::NBD_EINVAL),
        ErrorType::NBD_ENOSPC.spec_value() == 28,
        ErrorType::spec_from_value(28) == Some(ErrorType::NBD_ENOSPC),
        ErrorType::NBD_EOVERFLOW.spec_value() == 75,
        ErrorType::spec_from_value(75) == Some(ErrorType::NBD_EOVERFLOW),
        ErrorType::NBD_ENOTSUP.spec_value() == 95,
        ErrorType::spec_from_value(95) == Some(ErrorType::NBD_ENOTSUP),
        ErrorType::NBD_ESHUTDOWN.spec_value() == 108,
        ErrorType::spec_from_value(108) == Some(ErrorType::NBD_ESHUTDOWN),
{
}

} // verus!
