use solo2::ccid::{
    construct_atr, handle_transfer, prime_outbox, build_data_block, slot_status_ok, slot_status_error, parameters,
    wait_extension, control_in, reply_to, PacketAssembler, PacketReply, State, Chain, TransferAction, SlotError,
    TransferMode, CLOCK_FREQUENCY_KHZ, DATA_RATE_BPS, FUNCTIONAL_INTERFACE_DESCRIPTOR,
};

#[test]
fn answer_to_reset_with_issuer_data() {
    let atr = construct_atr(Some(b"Solo 2"), false);
    assert_eq!(atr, vec![0x3b, 0x88, 0x01, 0x80, 0x56, 0x53, 0x6f, 0x6c, 0x6f, 0x20, 0x32, 0x72]);
    // every byte but the first XORs to zero with the check byte
    assert_eq!(atr[1..].iter().fold(0u8, |a, b| a ^ b), 0);
}

#[test]
fn answer_to_reset_plain() {
    assert_eq!(construct_atr(None, false), vec![0x3b, 0x80, 0x01, 0x81]);
    assert_eq!(construct_atr(None, true), vec![0x3b, 0x80, 0x80, 0x01, 0x01]);
}

#[test]
fn transfer_in_pieces() {
    let mut message = Vec::new();
    assert_eq!(handle_transfer(State::Idle, Chain::Begins, &mut message, &[1, 2]), (State::Receiving, TransferAction::ExpectMore));
    assert_eq!(handle_transfer(State::Receiving, Chain::Continues, &mut message, &[3]), (State::Receiving, TransferAction::ExpectMore));
    assert_eq!(handle_transfer(State::Receiving, Chain::Ends, &mut message, &[4]), (State::Processing, TransferAction::CallApp));
    assert_eq!(message, vec![1, 2, 3, 4]);
    assert_eq!(handle_transfer(State::Idle, Chain::BeginsAndEnds, &mut message, &[9]), (State::Processing, TransferAction::CallApp));
    assert_eq!(message, vec![9]);
    assert_eq!(handle_transfer(State::Sending, Chain::ExpectingMore, &mut message, &[]), (State::Sending, TransferAction::PrimeOutbox));
}

#[test]
fn response_in_chunks() {
    // 120 bytes go out as 54 + 54 + 12
    let (n, c, s) = prime_outbox(State::ReadyToSend, 0, 120).unwrap();
    assert_eq!((n, c, s), (54, Chain::Begins, State::Sending));
    let (n, c, s) = prime_outbox(s, 54, 120).unwrap();
    assert_eq!((n, c, s), (54, Chain::Continues, State::Sending));
    let (n, c, s) = prime_outbox(s, 108, 120).unwrap();
    assert_eq!((n, c, s), (12, Chain::Ends, State::Idle));
    assert_eq!(prime_outbox(State::ReadyToSend, 0, 10), Some((10, Chain::BeginsAndEnds, State::Idle)));
    assert_eq!(prime_outbox(State::Idle, 0, 10), None);
    assert_eq!(prime_outbox(State::Processing, 0, 10), None);
}

#[test]
fn fixed_replies() {
    assert_eq!(build_data_block(7, Chain::Ends, &[0xaa, 0xbb]), vec![0x80, 2, 0, 0, 0, 0, 7, 0, 0, 2, 0xaa, 0xbb]);
    assert_eq!(build_data_block(1, Chain::ExpectingMore, &[]), vec![0x80, 0, 0, 0, 0, 0, 1, 0, 0, 0x10]);
    assert_eq!(slot_status_ok(3), vec![0x81, 0, 0, 0, 0, 0, 3, 0, 0, 0]);
    assert_eq!(slot_status_error(4, SlotError::CommandNotSupported), vec![0x6c, 0, 0, 0, 0, 0, 4, 0x40, 0, 0]);
    assert_eq!(slot_status_error(4, SlotError::CmdSlotBusy)[8], 0xe0);
    assert_eq!(parameters(5), vec![0x82, 7, 0, 0, 0, 0, 5, 0, 0, 1, 0x11, 0x10, 0, 0x15, 0, 0xfe, 0]);
    assert_eq!(wait_extension(State::Processing, 6), Some(vec![0x80, 0, 0, 0, 0, 0, 6, 0x80, 1, 0]));
    assert_eq!(wait_extension(State::Idle, 6), None);
    assert_eq!(TransferMode::Bulk.code(), 0);
    assert_eq!(FUNCTIONAL_INTERFACE_DESCRIPTOR.len(), 52);
}

#[test]
fn class_requests() {
    assert_eq!(control_in(2), Some(CLOCK_FREQUENCY_KHZ.to_vec()));
    assert_eq!(control_in(3), Some(DATA_RATE_BPS.to_vec()));
    assert_eq!(control_in(9), None);
}

#[test]
fn commands_from_the_host() {
    assert_eq!(reply_to(&[0x62, 0, 0, 0, 0, 0, 9, 0, 0, 0]), (PacketReply::Atr, 9));
    assert_eq!(reply_to(&[0x63, 0, 0, 0, 0, 0, 9, 0, 0, 0]), (PacketReply::SlotStatusOk, 9));
    assert_eq!(reply_to(&[0x65, 0, 0, 0, 0, 0, 9, 0, 0, 0]), (PacketReply::SlotStatusOk, 9));
    assert_eq!(reply_to(&[0x6c, 0, 0, 0, 0, 0, 9, 0, 0, 0]), (PacketReply::Parameters, 9));
    assert_eq!(reply_to(&[0x6f, 1, 0, 0, 0, 0, 9, 0, 1, 0, 0xaa]), (PacketReply::Transfer(Chain::Begins), 9));
    assert_eq!(reply_to(&[0x99, 0, 0, 0, 0, 0, 8, 0, 0, 0]), (PacketReply::NotSupported, 8));
}

#[test]
fn long_messages_are_reassembled() {
    let mut a = PacketAssembler::new();
    let mut first = vec![0x6f, 100, 0, 0, 0, 0, 1, 0, 0, 0];
    first.extend_from_slice(&[1u8; 54]);
    assert!(!a.receive(&first));
    assert!(!a.receive(&[2u8; 30]));
    assert!(a.receive(&[3u8; 16]));
    assert_eq!(a.message_bytes().len(), 64 + 46);
    let short = [0x62, 0, 0, 0, 0, 0, 2, 0, 0, 0];
    assert!(a.receive(&short));
    assert_eq!(a.message_bytes(), &short[..]);
}

#[test]
fn chained_command_arrives_whole() {
    let mut message: Vec<u8> = Vec::new();
    let (s, a) = handle_transfer(State::Idle, Chain::Begins, &mut message, &[1, 2]);
    assert_eq!((s, a), (State::Receiving, TransferAction::ExpectMore));
    let (s, a) = handle_transfer(s, Chain::Continues, &mut message, &[3]);
    assert_eq!((s, a), (State::Receiving, TransferAction::ExpectMore));
    let (s, a) = handle_transfer(s, Chain::Continues, &mut message, &[4, 5]);
    assert_eq!((s, a), (State::Receiving, TransferAction::ExpectMore));
    let (s, a) = handle_transfer(s, Chain::Ends, &mut message, &[6]);
    assert_eq!((s, a), (State::Processing, TransferAction::CallApp));
    assert_eq!(message, vec![1, 2, 3, 4, 5, 6]);
}
