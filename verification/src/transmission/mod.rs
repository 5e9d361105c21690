//! The transmission phase: requests from the client and the simple replies
//! of the server.
use vstd::prelude::*;
use bytes::Bytes;
use crate::buffer::{
    buf_freeze, buf_put_slice, buf_put_u32, buf_put_u64, buf_with_capacity, bytes_as_slice,
    bytes_mut_view, bytes_view, fits_buffer,
};
use crate::error::NbdError;
use crate::value::{CommandFlags, ErrorType, RequestType, NBD_REQUEST_MAGIC, NBD_SIMPLE_REPLY_MAGIC};
use crate::wire::{be32, be64, be_value, lemma_be_fixed_roundtrip};

verus! {

broadcast use crate::wire::lemma_be_bytes_len;

/// A request of the client: `NBD_REQUEST_MAGIC`, 16-bit command flags, a
/// 16-bit type, a 64-bit handle, a 64-bit offset and a 32-bit length, then,
/// for `NBD_CMD_WRITE`, `length` bytes of data.
#[derive(Clone, Debug)]
pub struct RequestMsg {
    pub cmd_flags: CommandFlags,
    pub request_type: RequestType,
    pub handle: u64,
    pub offset: u64,
    pub length: u32,
    pub data: Option<Bytes>,
}

/// What decoding a request header gives: the request, without data, when
/// the magic number is `NBD_REQUEST_MAGIC` and the type is one the protocol
/// defines.
pub open spec fn spec_decode_request_header(magic: u32, type_code: u16) -> Result<
    RequestType,
    NbdError,
> {
    if magic != NBD_REQUEST_MAGIC {
        Err(NbdError::BadRequestMagic(magic))
    } else {
        match RequestType::spec_from_value(type_code) {
            Some(t) => Ok(t),
            None => Err(NbdError::UnknownRequestType(type_code)),
        }
    }
}

impl RequestMsg {
    /// A write request carries exactly `length` bytes of data.
    pub open spec fn spec_payload_consistent(&self) -> bool {
        self.request_type == RequestType::NBD_CMD_WRITE ==> (self.data matches Some(d)
            && bytes_view(d).len() == self.length)
    }

    /// Decodes the fixed-size header of a request. The request has no data
    /// yet; a write request's data follows the header on the wire.
    pub fn from_header(
        magic: u32,
        cmd_flags: u16,
        type_code: u16,
        handle: u64,
        offset: u64,
        length: u32,
    ) -> (r: Result<RequestMsg, NbdError>)
        ensures
            match spec_decode_request_header(magic, type_code) {
                Ok(t) => r matches Ok(req) && req.request_type == t && req.cmd_flags == cmd_flags
                    && req.handle == handle && req.offset == offset && req.length == length
                    && req.data is None,
                Err(e) => r == Err::<RequestMsg, NbdError>(e),
            },
    {
        if magic != NBD_REQUEST_MAGIC {
            return Err(NbdError::BadRequestMagic(magic));
        }
        let request_type = match RequestType::try_from_primitive(type_code) {
            Some(t) => t,
            None => {
                return Err(NbdError::UnknownRequestType(type_code));
            },
        };
        Ok(RequestMsg { cmd_flags, request_type, handle, offset, length, data: None })
    }

    /// Gives the request the data that followed its header; a write request
    /// given exactly `length` bytes is then consistent.
    pub fn attach_payload(&mut self, data: Bytes)
        ensures
            final(self).data == Some(data),
            final(self).cmd_flags == old(self).cmd_flags,
            final(self).request_type == old(self).request_type,
            final(self).handle == old(self).handle,
            final(self).offset == old(self).offset,
            final(self).length == old(self).length,
            bytes_view(data).len() == old(self).length ==> final(self).spec_payload_consistent(),
    {
        self.data = Some(data);
    }

    /// Whether `length` bytes of data follow the header: only for
    /// `NBD_CMD_WRITE`.
    pub fn expects_payload(&self) -> (b: bool)
        ensures
            b == (self.request_type == RequestType::NBD_CMD_WRITE),
    {
        match self.request_type {
            RequestType::NBD_CMD_WRITE => true,
            _ => false,
        }
    }

    /// Whether a write request carries exactly `length` bytes of data.
    pub fn payload_consistent(&self) -> (b: bool)
        ensures
            b == self.spec_payload_consistent(),
    {
        if self.expects_payload() {
            match &self.data {
                Some(d) => bytes_as_slice(d).len() as u64 == self.length as u64,
                None => false,
            }
        } else {
            true
        }
    }
}

/// A simple reply of the server: `NBD_SIMPLE_REPLY_MAGIC`, a 32-bit error,
/// the 64-bit handle of the request, then the data of a read, if any.
pub struct SimpleReplyMsg {
    error: ErrorType,
    handle: u64,
    data: Option<Bytes>,
}

impl SimpleReplyMsg {
    /// The error the reply carries.
    pub closed spec fn spec_error(&self) -> ErrorType {
        self.error
    }

    /// The handle of the request the reply answers.
    pub closed spec fn spec_handle(&self) -> u64 {
        self.handle
    }

    /// The data the reply carries.
    pub closed spec fn spec_data(&self) -> Option<Bytes> {
        self.data
    }

    /// The bytes of the data the reply carries; none when it carries none.
    pub open spec fn spec_data_bytes(&self) -> Seq<u8> {
        match self.spec_data() {
            Some(d) => bytes_view(d),
            None => Seq::empty(),
        }
    }

    /// The bytes of the reply on the wire.
    pub open spec fn spec_wire(&self) -> Seq<u8> {
        be32(NBD_SIMPLE_REPLY_MAGIC) + be32(self.spec_error().spec_value()) + be64(
            self.spec_handle(),
        ) + self.spec_data_bytes()
    }

    /// A successful reply without data to `req`.
    pub fn new(req: &RequestMsg) -> (rep: Self)
        ensures
            rep.spec_error() == ErrorType::NO_ERROR,
            rep.spec_handle() == req.handle,
            rep.spec_data() is None,
    {
        SimpleReplyMsg { error: ErrorType::NO_ERROR, handle: req.handle, data: None }
    }

    /// A reply to `req` carrying the error `err`.
    pub fn with_err(req: &RequestMsg, err: ErrorType) -> (rep: Self)
        ensures
            rep.spec_error() == err,
            rep.spec_handle() == req.handle,
            rep.spec_data() is None,
    {
        SimpleReplyMsg { error: err, handle: req.handle, data: None }
    }

    /// A successful reply to `req` carrying `data`.
    pub fn with_data(req: &RequestMsg, data: Bytes) -> (rep: Self)
        ensures
            rep.spec_error() == ErrorType::NO_ERROR,
            rep.spec_handle() == req.handle,
            rep.spec_data() == Some(data),
    {
        SimpleReplyMsg { error: ErrorType::NO_ERROR, handle: req.handle, data: Some(data) }
    }

    /// Serializes the reply, every number in network byte order.
    pub fn to_nbd_bytes(self) -> (b: Bytes)
        requires
            fits_buffer(self.spec_wire().len()),
        ensures
            bytes_view(b) == self.spec_wire(),
    {
        let ghost wire = self.spec_wire();
        let mut buf = buf_with_capacity(1024);
        buf_put_u32(&mut buf, NBD_SIMPLE_REPLY_MAGIC);
        buf_put_u32(&mut buf, self.error.value());
        buf_put_u64(&mut buf, self.handle);
        if let Some(data) = self.data {
            buf_put_slice(&mut buf, bytes_as_slice(&data));
        }
        assert(bytes_mut_view(buf) =~= wire);
        buf_freeze(buf)
    }
}

/// A request header decoded: either the request, or, for a request type
/// the protocol does not define, the reply that refuses it.
pub enum RequestDecoding {
    /// The request, without its data.
    Request(RequestMsg),
    /// The reply to send instead of carrying out the request.
    Refused(SimpleReplyMsg),
}

/// Decodes the fixed-size header of a request as `RequestMsg::from_header`
/// does, except that a request of a type the protocol does not define is
/// answered with `NBD_EINVAL` (carrying its handle), as the protocol asks of a
/// server; only a wrong magic number is an error.
pub fn decode_request(
    magic: u32,
    cmd_flags: u16,
    type_code: u16,
    handle: u64,
    offset: u64,
    length: u32,
) -> (r: Result<RequestDecoding, NbdError>)
    ensures
        match spec_decode_request_header(magic, type_code) {
            Ok(t) => r matches Ok(RequestDecoding::Request(req)) && req.request_type == t
                && req.cmd_flags == cmd_flags && req.handle == handle && req.offset == offset
                && req.length == length && req.data is None,
            Err(NbdError::UnknownRequestType(_)) => r matches Ok(RequestDecoding::Refused(rep))
                && rep.spec_error() == ErrorType::NBD_EINVAL && rep.spec_handle() == handle
                && rep.spec_data() is None && fits_buffer(rep.spec_wire().len()),
            Err(e) => r == Err::<RequestDecoding, NbdError>(e),
        },
{
    match RequestMsg::from_header(magic, cmd_flags, type_code, handle, offset, length) {
        Ok(req) => Ok(RequestDecoding::Request(req)),
        Err(NbdError::UnknownRequestType(_)) => {
            let rep = SimpleReplyMsg { error: ErrorType::NBD_EINVAL, handle, data: None };
            assert(rep.spec_wire().len() == 16);
            Ok(RequestDecoding::Refused(rep))
        },
        Err(e) => Err(e),
    }
}

/// A simple reply on the wire is a 16-byte header followed by all of its
/// data: the header holds `NBD_SIMPLE_REPLY_MAGIC`, the error number and the
/// handle, each in network byte order.
pub proof fn lemma_simple_reply_layout(rep: SimpleReplyMsg)
    ensures
        rep.spec_wire().len() == 16 + rep.spec_data_bytes().len(),
        rep.spec_wire().skip(16) == rep.spec_data_bytes(),
        be_value(rep.spec_wire().subrange(0, 4)) == NBD_SIMPLE_REPLY_MAGIC,
        be_value(rep.spec_wire().subrange(4, 8)) == rep.spec_error().spec_value(),
        be_value(rep.spec_wire().subrange(8, 16)) == rep.spec_handle(),
        rep.spec_data() matches Some(d) ==> rep.spec_data_bytes() == bytes_view(d),
        rep.spec_data() is None ==> rep.spec_data_bytes().len() == 0,
{
    let w = rep.spec_wire();
    lemma_be_fixed_roundtrip(0, NBD_SIMPLE_REPLY_MAGIC, rep.spec_handle());
    lemma_be_fixed_roundtrip(0, rep.spec_error().spec_value(), 0);
    assert(w.subrange(0, 4) =~= be32(NBD_SIMPLE_REPLY_MAGIC));
    assert(w.subrange(4, 8) =~= be32(rep.spec_error().spec_value()));
    assert(w.subrange(8, 16) =~= be64(rep.spec_handle()));
    assert(w.skip(16) =~= rep.spec_data_bytes());
}

} // verus!
