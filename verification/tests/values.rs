use nbd::value::{
    ClientFlag, CommandFlag, ErrorType, HandshakeFlag, NBDInfoType, OptionReplyType, OptionType,
    RequestType, StructuredReplyFlag, StucturedReplyType, TransmissionFlag, NBD_MAGIC,
    NBD_OPT_MAGIC, NBD_OPT_REP_MAGIC, NBD_REQUEST_MAGIC, NBD_SIMPLE_REPLY_MAGIC,
    NBD_STRUCTURED_REPLY_MAGIC,
};

#[test]
fn magic_numbers_spell_their_names() {
    assert_eq!(NBD_MAGIC, u64::from_be_bytes(*b"NBDMAGIC"));
    assert_eq!(NBD_OPT_MAGIC, u64::from_be_bytes(*b"IHAVEOPT"));
    assert_eq!(NBD_OPT_REP_MAGIC, 0x3e889045565a9);
    assert_eq!(NBD_REQUEST_MAGIC, 0x25609513);
    assert_eq!(NBD_SIMPLE_REPLY_MAGIC, 0x67446698);
    assert_eq!(NBD_STRUCTURED_REPLY_MAGIC, 0x668e33ef);
}

#[test]
fn flag_values() {
    assert_eq!(HandshakeFlag::NBD_FLAG_FIXED_NEWSTYLE.value(), 1);
    assert_eq!(HandshakeFlag::NBD_FLAG_NO_ZEROES.value(), 2);
    assert_eq!(ClientFlag::NBD_FLAG_C_NO_ZEROES.value(), 2);
    assert_eq!(TransmissionFlag::NBD_FLAG_HAS_FLAGS.value(), 1);
    assert_eq!(TransmissionFlag::NBD_FLAG_SEND_TRIM.value(), 1 << 5);
    assert_eq!(TransmissionFlag::NBD_FLAG_SEND_FAST_ZERO.value(), 1 << 11);
    assert_eq!(CommandFlag::NBD_CMD_FLAG_FAST_ZERO.value(), 0x10);
    assert_eq!(StructuredReplyFlag::NBD_REPLY_FLAG_DONE.value(), 1);
}

#[test]
fn error_reply_types_have_bit_31_set() {
    assert_eq!(OptionReplyType::NBD_REP_ACK.value(), 1);
    assert_eq!(OptionReplyType::NBD_REP_META_CONTEXT.value(), 4);
    assert_eq!(OptionReplyType::NBD_REP_ERR_UNSUP.value(), (1u32 << 31) + 1);
    assert_eq!(OptionReplyType::NBD_REP_ERR_TOO_BIG.value(), (1u32 << 31) + 9);
    assert_eq!(StucturedReplyType::NBD_REPLY_TYPE_ERROR.value(), (1u32 << 15) + 1);
    assert_eq!(StucturedReplyType::NBD_REPLY_TYPE_ERROR_OFFSET.value(), (1u32 << 15) + 2);
    assert_eq!(StucturedReplyType::NBD_REPLY_TYPE_BLOCK_STATUS.value(), 5);
}

#[test]
fn numbers_lead_back_to_values() {
    for v in 0..20u32 {
        if let Some(t) = OptionType::try_from_primitive(v) {
            assert_eq!(t.value(), v);
        }
    }
    assert_eq!(OptionType::try_from_primitive(7), Some(OptionType::NBD_OPT_GO));
    assert_eq!(OptionType::try_from_primitive(0), None);
    assert_eq!(OptionType::try_from_primitive(11), None);
    assert_eq!(RequestType::try_from_primitive(1), Some(RequestType::NBD_CMD_WRITE));
    assert_eq!(RequestType::try_from_primitive(10), None);
    assert_eq!(NBDInfoType::try_from_primitive(3), Some(NBDInfoType::NBD_INFO_BLOCK_SIZE));
    assert_eq!(NBDInfoType::try_from_primitive(4), None);
    assert_eq!(ErrorType::try_from_primitive(28), Some(ErrorType::NBD_ENOSPC));
    assert_eq!(ErrorType::try_from_primitive(2), None);
    assert_eq!(
        OptionReplyType::try_from_primitive(0x8000_0006),
        Some(OptionReplyType::NBD_REP_ERR_UNKNOWN)
    );
    assert_eq!(OptionReplyType::try_from_primitive(34), None);
    assert_eq!(
        StucturedReplyType::try_from_primitive(0x8001),
        Some(StucturedReplyType::NBD_REPLY_TYPE_ERROR)
    );
    assert_eq!(
        TransmissionFlag::try_from_primitive(0x0400),
        Some(TransmissionFlag::NBD_FLAG_SEND_CACHE)
    );
    assert_eq!(TransmissionFlag::try_from_primitive(3), None);
    assert_eq!(
        HandshakeFlag::try_from_primitive(1),
        Some(HandshakeFlag::NBD_FLAG_FIXED_NEWSTYLE)
    );
    assert_eq!(ClientFlag::try_from_primitive(4), None);
    assert_eq!(CommandFlag::try_from_primitive(8), Some(CommandFlag::NBD_CMD_FLAG_REQ_ONE));
    assert_eq!(
        StructuredReplyFlag::try_from_primitive(1),
        Some(StructuredReplyFlag::NBD_REPLY_FLAG_DONE)
    );
    assert_eq!(ErrorType::NBD_ESHUTDOWN.value(), 108);
}
