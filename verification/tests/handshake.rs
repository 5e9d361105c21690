use bytes::BytesMut;
use nbd::error::NbdError;
use nbd::handshake::info::NBDInfo;
use nbd::handshake::init::{OptionHaggle, OptionHaggleRep};
use nbd::value::{NBDInfoType, OptionType, NBD_OPT_MAGIC};

const OPT: [u8; 8] = *b"IHAVEOPT";
const REP: [u8; 8] = [0x00, 0x03, 0xe8, 0x89, 0x04, 0x55, 0x65, 0xa9];

fn cat(parts: &[&[u8]]) -> Vec<u8> {
    parts.concat()
}

#[test]
fn info_export_is_twelve_bytes() {
    let b = NBDInfo::Export(0x0102_0304_0506_0708, 0x0001).to_nbd_bytes();
    assert_eq!(&b[..], &[0, 0, 1, 2, 3, 4, 5, 6, 7, 8, 0, 1][..]);
}

#[test]
fn info_name_and_description() {
    let b = NBDInfo::Name("disk".to_string()).to_nbd_bytes();
    assert_eq!(&b[..], &cat(&[&[0, 1], b"disk"])[..]);
    let b = NBDInfo::Description("é".to_string()).to_nbd_bytes();
    assert_eq!(&b[..], &[0, 2, 0xc3, 0xa9][..]);
}

#[test]
fn info_block_size_is_fourteen_bytes() {
    let b = NBDInfo::BlockSize(512, 4096, 0x0200_0000).to_nbd_bytes();
    assert_eq!(
        &b[..],
        &[0, 3, 0, 0, 2, 0, 0, 0, 0x10, 0, 2, 0, 0, 0][..]
    );
}

#[test]
fn option_abort_bytes() {
    let b = OptionHaggle::Abort.to_nbd_bytes();
    assert_eq!(&b[..], &cat(&[&OPT, &[0, 0, 0, 2], &[0, 0, 0, 0]])[..]);
}

#[test]
fn option_export_name_and_structured_reply_bytes() {
    let b = OptionHaggle::ExportName(b"x".to_vec()).to_nbd_bytes();
    assert_eq!(&b[..], &cat(&[&OPT, &[0, 0, 0, 1], &[0, 0, 0, 1], b"x"])[..]);
    let b = OptionHaggle::StructuredReply.to_nbd_bytes();
    assert_eq!(&b[..], &cat(&[&OPT, &[0, 0, 0, 8], &[0, 0, 0, 0]])[..]);
}

#[test]
fn option_info_and_go_bytes() {
    let infos = vec![NBDInfoType::NBD_INFO_EXPORT, NBDInfoType::NBD_INFO_NAME];
    let b = OptionHaggle::Info(b"ab".to_vec(), infos.clone()).to_nbd_bytes();
    let data: &[u8] = &[0, 0, 0, 2, b'a', b'b', 0, 2, 0, 0, 0, 1];
    assert_eq!(&b[..], &cat(&[&OPT, &[0, 0, 0, 6], &[0, 0, 0, 12], data])[..]);
    let b = OptionHaggle::Go(b"ab".to_vec(), infos).to_nbd_bytes();
    assert_eq!(&b[..], &cat(&[&OPT, &[0, 0, 0, 7], &[0, 0, 0, 12], data])[..]);
}

#[test]
fn option_header_decoding() {
    assert_eq!(OptionHaggle::decode_header(NBD_OPT_MAGIC, 7), Ok(OptionType::NBD_OPT_GO));
    assert_eq!(OptionHaggle::decode_header(NBD_OPT_MAGIC, 2), Ok(OptionType::NBD_OPT_ABORT));
    assert_eq!(OptionHaggle::decode_header(1, 7), Err(NbdError::BadOptionMagic(1)));
    assert_eq!(OptionHaggle::decode_header(NBD_OPT_MAGIC, 99), Err(NbdError::UnknownOption(99)));
}

#[test]
fn option_data_acceptance() {
    let empty = BytesMut::new();
    let one = BytesMut::from(&[1u8][..]);
    assert!(OptionHaggle::payload_accepted(OptionType::NBD_OPT_ABORT, &empty));
    assert!(OptionHaggle::payload_accepted(OptionType::NBD_OPT_LIST, &empty));
    assert!(OptionHaggle::payload_accepted(OptionType::NBD_OPT_ABORT, &one));
    assert!(!OptionHaggle::payload_accepted(OptionType::NBD_OPT_LIST, &one));
    assert!(OptionHaggle::payload_accepted(OptionType::NBD_OPT_EXPORT_NAME, &one));
    assert!(OptionHaggle::payload_accepted(OptionType::NBD_OPT_EXPORT_NAME, &empty));
    assert!(!OptionHaggle::payload_accepted(OptionType::NBD_OPT_STARTTLS, &empty));
    assert!(!OptionHaggle::payload_accepted(OptionType::NBD_OPT_PEEK_EXPORT, &empty));
    assert!(!OptionHaggle::payload_accepted(OptionType::NBD_OPT_SET_META_CONTEXT, &empty));
    assert!(OptionHaggle::payload_accepted(OptionType::NBD_OPT_STRUCTURED_REPLY, &empty));
    assert!(!OptionHaggle::payload_accepted(OptionType::NBD_OPT_STRUCTURED_REPLY, &one));
    // too short for the name length
    assert!(!OptionHaggle::payload_accepted(OptionType::NBD_OPT_GO, &BytesMut::from(&[0u8, 0, 0][..])));
    // name longer than the data
    let long_name = BytesMut::from(&[0u8, 0, 0, 9, b'a', 0, 0][..]);
    assert!(!OptionHaggle::payload_accepted(OptionType::NBD_OPT_INFO, &long_name));
    // two requests announced, one present
    let short = BytesMut::from(&[0u8, 0, 0, 1, b'a', 0, 2, 0, 0][..]);
    assert!(!OptionHaggle::payload_accepted(OptionType::NBD_OPT_INFO, &short));
    let ok = BytesMut::from(&[0u8, 0, 0, 1, b'a', 0, 1, 0, 0][..]);
    assert!(OptionHaggle::payload_accepted(OptionType::NBD_OPT_INFO, &ok));
    let no_name = BytesMut::from(&[0u8, 0, 0, 0, 0, 0][..]);
    assert!(OptionHaggle::payload_accepted(OptionType::NBD_OPT_GO, &no_name));
}

#[test]
fn option_data_decoding() {
    assert_eq!(
        OptionHaggle::decode_data(OptionType::NBD_OPT_ABORT, BytesMut::new()),
        OptionHaggle::Abort
    );
    assert_eq!(
        OptionHaggle::decode_data(OptionType::NBD_OPT_LIST, BytesMut::new()),
        OptionHaggle::List
    );
    let data = BytesMut::from(&[0u8, 0, 0, 3, b'e', b'x', b'p', 0, 2, 0, 3, 0, 0, 0xff][..]);
    assert_eq!(
        OptionHaggle::decode_data(OptionType::NBD_OPT_GO, data),
        OptionHaggle::Go(b"exp".to_vec(), vec![NBDInfoType::NBD_INFO_BLOCK_SIZE, NBDInfoType::NBD_INFO_EXPORT])
    );
}

#[test]
fn option_unknown_info_requests_are_ignored() {
    let data = BytesMut::from(&[0u8, 0, 0, 0, 0, 3, 0, 9, 0, 1, 0x80, 0][..]);
    assert_eq!(
        OptionHaggle::decode_data(OptionType::NBD_OPT_INFO, data),
        OptionHaggle::Info(vec![], vec![NBDInfoType::NBD_INFO_NAME])
    );
}

#[test]
fn option_roundtrip() {
    let opts = vec![
        OptionHaggle::Abort,
        OptionHaggle::List,
        OptionHaggle::StructuredReply,
        OptionHaggle::ExportName(b"disk".to_vec()),
        OptionHaggle::ExportName(vec![]),
        OptionHaggle::Info(b"disk0".to_vec(), vec![NBDInfoType::NBD_INFO_DESCRIPTION]),
        OptionHaggle::Go(vec![], vec![]),
        OptionHaggle::Go(b"g".to_vec(), vec![NBDInfoType::NBD_INFO_EXPORT, NBDInfoType::NBD_INFO_BLOCK_SIZE]),
    ];
    for opt in opts {
        let wire = opt.clone().to_nbd_bytes();
        let magic = u64::from_be_bytes(wire[0..8].try_into().unwrap());
        let option = u32::from_be_bytes(wire[8..12].try_into().unwrap());
        let len = u32::from_be_bytes(wire[12..16].try_into().unwrap());
        assert_eq!(len as usize, wire.len() - 16);
        let t = OptionHaggle::decode_header(magic, option).unwrap();
        assert_eq!(t, opt.option_type());
        let data = BytesMut::from(&wire[16..]);
        assert!(OptionHaggle::payload_accepted(t, &data));
        assert_eq!(OptionHaggle::decode_data(t, data), opt);
    }
}

#[test]
fn option_type_from_option() {
    assert_eq!(OptionType::from(OptionHaggle::List), OptionType::NBD_OPT_LIST);
    assert_eq!(OptionType::from(OptionHaggle::ExportName(vec![])), OptionType::NBD_OPT_EXPORT_NAME);
    assert_eq!(OptionType::from(OptionHaggle::Info(vec![], vec![])), OptionType::NBD_OPT_INFO);
    assert_eq!(OptionHaggle::StructuredReply.option_type(), OptionType::NBD_OPT_STRUCTURED_REPLY);
}

#[test]
fn reply_ack() {
    let mut rep = OptionHaggleRep::with_option(OptionType::NBD_OPT_GO);
    rep.ack();
    assert_eq!(&rep.to_nbd_bytes()[..], &cat(&[&REP, &[0, 0, 0, 7], &[0, 0, 0, 1], &[0, 0, 0, 0]])[..]);
}

#[test]
fn reply_server() {
    let mut rep = OptionHaggleRep::with_option(OptionType::NBD_OPT_LIST);
    rep.server("exp".to_string());
    assert_eq!(
        &rep.to_nbd_bytes()[..],
        &cat(&[&REP, &[0, 0, 0, 3], &[0, 0, 0, 2], &[0, 0, 0, 7], &[0, 0, 0, 3], b"exp"])[..]
    );
}

#[test]
fn reply_info() {
    let mut rep = OptionHaggleRep::with_option(OptionType::NBD_OPT_INFO);
    rep.info(NBDInfo::Export(256, 1));
    assert_eq!(
        &rep.to_nbd_bytes()[..],
        &cat(&[&REP, &[0, 0, 0, 6], &[0, 0, 0, 3], &[0, 0, 0, 12], &[0, 0, 0, 0, 0, 0, 0, 0, 1, 0, 0, 1]])[..]
    );
}

#[test]
fn reply_unsupported() {
    let mut rep = OptionHaggleRep::with_option(OptionType::NBD_OPT_STARTTLS);
    rep.unsupport();
    assert_eq!(
        &rep.to_nbd_bytes()[..],
        &cat(&[&REP, &[0, 0, 0, 5], &[0x80, 0, 0, 1], &[0, 0, 0, 0]])[..]
    );
    let mut rep = OptionHaggleRep::with_option(OptionType::NBD_OPT_STARTTLS);
    rep.unsupport_with_msg("no".to_string());
    assert_eq!(
        &rep.to_nbd_bytes()[..],
        &cat(&[&REP, &[0, 0, 0, 5], &[0x80, 0, 0, 1], &[0, 0, 0, 2], b"no"])[..]
    );
}

#[test]
fn reply_without_content_is_internal_error() {
    let rep = OptionHaggleRep::with_option(OptionType::NBD_OPT_ABORT);
    assert_eq!(
        &rep.to_nbd_bytes()[..],
        &cat(&[&REP, &[0, 0, 0, 2], &[0x80, 0, 0, 1], &[0, 0, 0, 14], b"internal error"])[..]
    );
}

#[test]
fn reply_last_setter_wins() {
    let mut rep = OptionHaggleRep::with_option(OptionType::NBD_OPT_GO);
    rep.unsupport();
    rep.ack();
    assert_eq!(&rep.to_nbd_bytes()[..], &cat(&[&REP, &[0, 0, 0, 7], &[0, 0, 0, 1], &[0, 0, 0, 0]])[..]);
}

#[test]
fn option_list_bytes() {
    let b = OptionHaggle::List.to_nbd_bytes();
    assert_eq!(&b[..], &cat(&[&OPT, &[0, 0, 0, 3], &[0, 0, 0, 0]])[..]);
}

#[test]
fn option_abort_data_is_ignored() {
    let data = BytesMut::from(&[0xffu8][..]);
    assert_eq!(OptionHaggle::decode_data(OptionType::NBD_OPT_ABORT, data), OptionHaggle::Abort);
}

#[test]
fn option_export_name_and_structured_reply_decoding() {
    assert_eq!(
        OptionHaggle::decode_data(OptionType::NBD_OPT_EXPORT_NAME, BytesMut::from(&b"exp"[..])),
        OptionHaggle::ExportName(b"exp".to_vec())
    );
    assert_eq!(
        OptionHaggle::decode_data(OptionType::NBD_OPT_STRUCTURED_REPLY, BytesMut::new()),
        OptionHaggle::StructuredReply
    );
}

#[test]
fn reply_invalid() {
    let mut rep = OptionHaggleRep::with_option(OptionType::NBD_OPT_LIST);
    rep.invalid();
    assert_eq!(
        &rep.to_nbd_bytes()[..],
        &cat(&[&REP, &[0, 0, 0, 3], &[0x80, 0, 0, 3], &[0, 0, 0, 0]])[..]
    );
}

#[test]
fn reply_to_an_undefined_option_number() {
    let mut rep = OptionHaggleRep::with_option_number(0x1234);
    rep.unsupport();
    assert_eq!(
        &rep.to_nbd_bytes()[..],
        &cat(&[&REP, &[0, 0, 0x12, 0x34], &[0x80, 0, 0, 1], &[0, 0, 0, 0]])[..]
    );
}
