use bytes::{Bytes, BytesMut};
use nbd::error::NbdError;
use nbd::handshake::info::NBDInfo;
use nbd::handshake::init::{OptionHaggle, OptionHaggleRep};
use nbd::server::{HagglePhase, ServerState};
use nbd::transmission::{decode_request, RequestDecoding, RequestMsg, SimpleReplyMsg};
use nbd::value::{
    ErrorType, NBDInfoType, OptionType, RequestType, NBD_OPT_MAGIC, NBD_REQUEST_MAGIC,
};

const SIMPLE: [u8; 4] = [0x67, 0x44, 0x66, 0x98];

fn request(t: RequestType, handle: u64, offset: u64, length: u32, data: Option<&[u8]>) -> RequestMsg {
    let mut r = RequestMsg::from_header(NBD_REQUEST_MAGIC, 0, t.value(), handle, offset, length).unwrap();
    r.data = data.map(|d| Bytes::copy_from_slice(d));
    r
}

fn wire(reply: SimpleReplyMsg) -> Vec<u8> {
    reply.to_nbd_bytes().to_vec()
}

fn reply_bytes(error: u32, handle: u64, data: &[u8]) -> Vec<u8> {
    [&SIMPLE[..], &error.to_be_bytes()[..], &handle.to_be_bytes()[..], data].concat()
}

#[test]
fn request_header_decoding() {
    let r = RequestMsg::from_header(NBD_REQUEST_MAGIC, 1, 0, 7, 512, 64).unwrap();
    assert_eq!(r.cmd_flags, 1);
    assert_eq!(r.request_type, RequestType::NBD_CMD_READ);
    assert_eq!(r.handle, 7);
    assert_eq!(r.offset, 512);
    assert_eq!(r.length, 64);
    assert!(r.data.is_none());
    assert!(!r.expects_payload());
    assert!(r.payload_consistent());
    assert_eq!(
        RequestMsg::from_header(0x12560953, 0, 0, 0, 0, 0).err(),
        Some(NbdError::BadRequestMagic(0x12560953))
    );
    assert_eq!(
        RequestMsg::from_header(NBD_REQUEST_MAGIC, 0, 10, 0, 0, 0).err(),
        Some(NbdError::UnknownRequestType(10))
    );
}

#[test]
fn write_request_payload() {
    let mut r = RequestMsg::from_header(NBD_REQUEST_MAGIC, 0, 1, 1, 0, 3).unwrap();
    assert!(r.expects_payload());
    assert!(!r.payload_consistent());
    r.data = Some(Bytes::from_static(b"ab"));
    assert!(!r.payload_consistent());
    r.data = Some(Bytes::from_static(b"abc"));
    assert!(r.payload_consistent());
}

#[test]
fn simple_reply_bytes() {
    let r = request(RequestType::NBD_CMD_FLUSH, 0x0102030405060708, 0, 0, None);
    assert_eq!(wire(SimpleReplyMsg::new(&r)), reply_bytes(0, 0x0102030405060708, &[]));
    assert_eq!(
        wire(SimpleReplyMsg::with_err(&r, ErrorType::NBD_EIO)),
        reply_bytes(5, 0x0102030405060708, &[])
    );
    assert_eq!(
        wire(SimpleReplyMsg::with_data(&r, Bytes::from_static(b"xyz"))),
        reply_bytes(0, 0x0102030405060708, b"xyz")
    );
}

#[test]
fn server_defaults() {
    let s = ServerState::new();
    assert_eq!(s.size(), 256 * 1024 * 1024);
    assert_eq!(s.server_flags(), 1);
    assert_eq!(s.transmission_flags(), 1);
}

fn rep_bytes(rep: &OptionHaggleRep) -> Vec<u8> {
    rep.clone().to_nbd_bytes().to_vec()
}

#[test]
fn server_option_replies() {
    let s = ServerState::with_size(4096);
    let go = OptionHaggle::Go(b"".to_vec(), vec![NBDInfoType::NBD_INFO_EXPORT]);
    let replies = s.option_replies(&go);
    assert_eq!(replies.len(), 2);
    let mut info = OptionHaggleRep::with_option(OptionType::NBD_OPT_GO);
    info.info(NBDInfo::Export(4096, 1));
    let mut ack = OptionHaggleRep::with_option(OptionType::NBD_OPT_GO);
    ack.ack();
    assert_eq!(rep_bytes(&replies[0]), rep_bytes(&info));
    assert_eq!(rep_bytes(&replies[1]), rep_bytes(&ack));

    let replies = s.option_replies(&OptionHaggle::Info(b"a".to_vec(), vec![]));
    assert_eq!(replies.len(), 2);

    for opt in [OptionHaggle::Abort, OptionHaggle::List] {
        let t = opt.option_type();
        let replies = s.option_replies(&opt);
        let mut ack = OptionHaggleRep::with_option(t);
        ack.ack();
        assert_eq!(replies.len(), 1);
        assert_eq!(rep_bytes(&replies[0]), rep_bytes(&ack));
    }
    assert_eq!(s.option_replies(&OptionHaggle::ExportName(b"e".to_vec())).len(), 0);
    for opt in [OptionHaggle::StructuredReply] {
        let t = opt.option_type();
        let replies = s.option_replies(&opt);
        let mut unsup = OptionHaggleRep::with_option(t);
        unsup.unsupport();
        assert_eq!(replies.len(), 1);
        assert_eq!(rep_bytes(&replies[0]), rep_bytes(&unsup));
    }
}

#[test]
fn read_of_fresh_disk_is_zeros() {
    let mut s = ServerState::with_size(64);
    let reply = s.handle_request(request(RequestType::NBD_CMD_READ, 9, 60, 4, None)).unwrap();
    assert_eq!(wire(reply), reply_bytes(0, 9, &[0, 0, 0, 0]));
}

#[test]
fn read_after_write() {
    let mut s = ServerState::with_size(64);
    let reply = s
        .handle_request(request(RequestType::NBD_CMD_WRITE, 1, 10, 5, Some(b"hello")))
        .unwrap();
    assert_eq!(wire(reply), reply_bytes(0, 1, &[]));
    let reply = s.handle_request(request(RequestType::NBD_CMD_READ, 2, 10, 5, None)).unwrap();
    assert_eq!(wire(reply), reply_bytes(0, 2, b"hello"));
    // the bytes around the write are unchanged
    let reply = s.handle_request(request(RequestType::NBD_CMD_READ, 3, 8, 9, None)).unwrap();
    assert_eq!(wire(reply), reply_bytes(0, 3, b"\0\0hello\0\0"));
    assert_eq!(s.size(), 64);
}

#[test]
fn write_at_the_end_of_the_disk() {
    let mut s = ServerState::with_size(8);
    let reply = s
        .handle_request(request(RequestType::NBD_CMD_WRITE, 4, 6, 2, Some(b"zz")))
        .unwrap();
    assert_eq!(wire(reply), reply_bytes(0, 4, &[]));
    let reply = s.handle_request(request(RequestType::NBD_CMD_READ, 5, 0, 8, None)).unwrap();
    assert_eq!(wire(reply), reply_bytes(0, 5, b"\0\0\0\0\0\0zz"));
}

#[test]
fn read_past_the_end_is_invalid() {
    let mut s = ServerState::with_size(16);
    let reply = s.handle_request(request(RequestType::NBD_CMD_READ, 6, 10, 7, None)).unwrap();
    assert_eq!(wire(reply), reply_bytes(22, 6, &[]));
    let reply = s
        .handle_request(request(RequestType::NBD_CMD_READ, 6, u64::MAX, 2, None))
        .unwrap();
    assert_eq!(wire(reply), reply_bytes(22, 6, &[]));
}

#[test]
fn write_past_the_end_is_no_space_and_changes_nothing() {
    let mut s = ServerState::with_size(16);
    let reply = s
        .handle_request(request(RequestType::NBD_CMD_WRITE, 7, 14, 3, Some(b"abc")))
        .unwrap();
    assert_eq!(wire(reply), reply_bytes(28, 7, &[]));
    let reply = s.handle_request(request(RequestType::NBD_CMD_READ, 8, 0, 16, None)).unwrap();
    assert_eq!(wire(reply), reply_bytes(0, 8, &[0u8; 16]));
}

#[test]
fn disconnect_ends_transmission() {
    let mut s = ServerState::with_size(16);
    assert!(s.handle_request(request(RequestType::NBD_CMD_DISC, 1, 0, 0, None)).is_none());
}

#[test]
fn other_requests_are_not_supported() {
    let mut s = ServerState::with_size(16);
    for t in [
        RequestType::NBD_CMD_FLUSH,
        RequestType::NBD_CMD_TRIM,
        RequestType::NBD_CMD_CACHE,
        RequestType::NBD_CMD_WRITE_ZEROES,
        RequestType::NBD_CMD_BLOCK_STATUS,
    ] {
        let reply = s.handle_request(request(t, 11, 0, 4, None)).unwrap();
        assert_eq!(wire(reply), reply_bytes(95, 11, &[]));
    }
}

#[test]
fn write_request_attach_payload() {
    let mut r = RequestMsg::from_header(NBD_REQUEST_MAGIC, 2, 1, 5, 8, 2).unwrap();
    r.attach_payload(Bytes::from_static(b"ok"));
    assert!(r.payload_consistent());
    assert_eq!(r.handle, 5);
    assert_eq!(r.offset, 8);
    assert_eq!(r.cmd_flags, 2);
    assert_eq!(&r.data.as_ref().unwrap()[..], b"ok");
}

#[test]
fn server_greeting() {
    let s = ServerState::with_size(16);
    assert_eq!(&s.greeting()[..], &[&b"NBDMAGIC"[..], &b"IHAVEOPT"[..], &[0, 1][..]].concat()[..]);
}

const REP: [u8; 8] = [0x00, 0x03, 0xe8, 0x89, 0x04, 0x55, 0x65, 0xa9];

fn answer(s: &ServerState, option: u32, data: &[u8]) -> Vec<Vec<u8>> {
    s.answer_option(NBD_OPT_MAGIC, option, BytesMut::from(data))
        .unwrap()
        .into_iter()
        .map(|r| r.to_nbd_bytes().to_vec())
        .collect()
}

fn rep(option: u32, kind: u32, data: &[u8]) -> Vec<u8> {
    [&REP[..], &option.to_be_bytes()[..], &kind.to_be_bytes()[..], &(data.len() as u32).to_be_bytes()[..], data].concat()
}

#[test]
fn answer_bad_magic() {
    let s = ServerState::with_size(16);
    assert_eq!(s.answer_option(7, 7, BytesMut::new()).err(), Some(NbdError::BadOptionMagic(7)));
}

#[test]
fn answer_go() {
    let s = ServerState::with_size(4096);
    let info = [0u8, 0, 0, 0, 0, 0, 0, 0, 0x10, 0, 0, 1];
    assert_eq!(
        answer(&s, 7, &[0, 0, 0, 0, 0, 0]),
        vec![rep(7, 3, &info), rep(7, 1, &[])]
    );
    assert_eq!(
        answer(&s, 6, &[0, 0, 0, 1, b'a', 0, 1, 0, 0]),
        vec![rep(6, 3, &info), rep(6, 1, &[])]
    );
}

#[test]
fn answer_abort_and_list() {
    let s = ServerState::with_size(16);
    assert_eq!(answer(&s, 2, &[]), vec![rep(2, 1, &[])]);
    assert_eq!(answer(&s, 2, &[1, 2, 3]), vec![rep(2, 1, &[])]);
    assert_eq!(answer(&s, 3, &[]), vec![rep(3, 1, &[])]);
}

#[test]
fn answer_invalid_requests() {
    let s = ServerState::with_size(16);
    let invalid = 0x8000_0003;
    assert_eq!(answer(&s, 3, &[0]), vec![rep(3, invalid, &[])]);
    assert_eq!(answer(&s, 8, &[0]), vec![rep(8, invalid, &[])]);
    assert_eq!(answer(&s, 7, &[0, 0, 0, 9, 0, 0]), vec![rep(7, invalid, &[])]);
    assert_eq!(answer(&s, 6, &[0, 0]), vec![rep(6, invalid, &[])]);
}

#[test]
fn answer_unsupported_options() {
    let s = ServerState::with_size(16);
    let unsup = 0x8000_0001;
    assert_eq!(answer(&s, 1, b"e"), Vec::<Vec<u8>>::new());
    for option in [4u32, 5, 8, 9, 10, 0, 11, 0xdead] {
        let data: &[u8] = if option == 8 { &[] } else { &[1, 2] };
        assert_eq!(answer(&s, option, data), vec![rep(option, unsup, &[])]);
    }
}

#[test]
fn client_flags_check() {
    let s = ServerState::new();
    assert!(s.accept_client_flags(0));
    assert!(s.accept_client_flags(1));
    assert!(!s.accept_client_flags(2));
    assert!(!s.accept_client_flags(3));
    assert!(!s.accept_client_flags(4));
    assert!(!s.accept_client_flags(0x8000_0001));
    assert!(!s.no_zeroes(3));
}

#[test]
fn export_name_answer() {
    let s = ServerState::with_size(4096);
    let mut expected = vec![0u8, 0, 0, 0, 0, 0, 0x10, 0, 0, 1];
    assert_eq!(&s.export_name_info(true)[..], &expected[..]);
    expected.extend_from_slice(&[0u8; 124]);
    assert_eq!(&s.export_name_info(false)[..], &expected[..]);
}

fn step(s: &ServerState, option: u32, data: &[u8]) -> (Vec<Vec<u8>>, Option<Vec<u8>>, HagglePhase) {
    let st = s.haggle_step(1, NBD_OPT_MAGIC, option, BytesMut::from(data)).unwrap();
    (
        st.replies.into_iter().map(|r| r.to_nbd_bytes().to_vec()).collect(),
        st.export_info.map(|b| b.to_vec()),
        st.phase,
    )
}

#[test]
fn haggling_info_then_go() {
    let s = ServerState::with_size(4096);
    let info = [0u8, 0, 0, 0, 0, 0, 0, 0, 0x10, 0, 0, 1];
    let empty = [0u8, 0, 0, 0, 0, 0];
    assert_eq!(
        step(&s, 6, &empty),
        (vec![rep(6, 3, &info), rep(6, 1, &[])], None, HagglePhase::Haggling)
    );
    assert_eq!(
        step(&s, 7, &empty),
        (vec![rep(7, 3, &info), rep(7, 1, &[])], None, HagglePhase::Transmission)
    );
}

#[test]
fn haggling_phases() {
    let s = ServerState::with_size(4096);
    assert_eq!(step(&s, 2, &[]), (vec![rep(2, 1, &[])], None, HagglePhase::Close));
    assert_eq!(step(&s, 3, &[]), (vec![rep(3, 1, &[])], None, HagglePhase::Haggling));
    assert_eq!(
        step(&s, 7, &[0, 0]),
        (vec![rep(7, 0x8000_0003, &[])], None, HagglePhase::Haggling)
    );
    assert_eq!(
        step(&s, 99, &[]),
        (vec![rep(99, 0x8000_0001, &[])], None, HagglePhase::Haggling)
    );
    let (replies, info, phase) = step(&s, 1, b"disk");
    assert!(replies.is_empty());
    assert_eq!(info.unwrap(), s.export_name_info(false).to_vec());
    assert_eq!(phase, HagglePhase::Transmission);
    assert_eq!(
        s.haggle_step(1, 5, 7, BytesMut::new()).err(),
        Some(NbdError::BadOptionMagic(5))
    );
}

#[test]
fn unknown_command_is_invalid() {
    match decode_request(NBD_REQUEST_MAGIC, 0, 42, 77, 0, 0).unwrap() {
        RequestDecoding::Refused(reply) => assert_eq!(wire(reply), reply_bytes(22, 77, &[])),
        RequestDecoding::Request(_) => panic!("an unknown command was decoded"),
    }
    match decode_request(NBD_REQUEST_MAGIC, 3, 0, 77, 8, 16).unwrap() {
        RequestDecoding::Request(r) => {
            assert_eq!(r.request_type, RequestType::NBD_CMD_READ);
            assert_eq!((r.cmd_flags, r.handle, r.offset, r.length), (3, 77, 8, 16));
        }
        RequestDecoding::Refused(_) => panic!("a read was refused"),
    }
    assert!(matches!(
        decode_request(1, 0, 0, 0, 0, 0),
        Err(NbdError::BadRequestMagic(1))
    ));
}
