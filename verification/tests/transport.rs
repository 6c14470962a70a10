use managed::ManagedSlice;
use saelient::transport::{
    AbortReason, AbortSenderRole, ClearToSend, ConnectionAbort, DataTransfer, EndOfMessageAck,
    Error, RequestToSend, Response, Transfer,
};
use saelient::Pgn;

fn segment(payload: &[u8], sequence: u8) -> DataTransfer {
    let mut data = [0xFF; 7];
    let start = core::cmp::min(7 * (sequence as usize - 1), payload.len());
    let end = core::cmp::min(start + 7, payload.len());
    data[..end - start].clone_from_slice(&payload[start..end]);
    DataTransfer::new(sequence, data)
}

fn message(len: usize) -> Vec<u8> {
    (0..len).map(|i| (i * 31 + 7) as u8).collect()
}

#[test]
fn transmission() {
    let rts = RequestToSend::new(16, Some(2), Pgn::ProprietaryA);
    let mut transfer = Transfer::new(rts);

    // send first data transfer
    let dt = DataTransfer::try_from([1, 1, 2, 3, 4, 5, 6, 7].as_ref()).unwrap();
    transfer.next(dt).unwrap();

    // send second data transfer which should trigger a CTS response.
    let dt = DataTransfer::try_from([2, 1, 2, 3, 4, 5, 6, 7].as_ref()).unwrap();
    let cts_response = transfer.next(dt).unwrap().expect("Response frame");
    assert!(matches!(&cts_response, Response::Cts(cts) if cts.next_sequence() == 3));

    // send third data transfer which should trigger a EndOfMsgAck response.
    let dt = DataTransfer::try_from([3, 1, 2, 0xFF, 0xFF, 0xFF, 0xFF, 0xFF].as_ref()).unwrap();
    let ack_response = transfer.next(dt).unwrap().expect("Response frame");
    assert!(matches!(&ack_response, Response::End(end) if end.total_size() == 16));
    assert!(matches!(&ack_response, Response::End(end) if end.total_packets() == 3));

    assert_eq!(
        transfer.finished().unwrap(),
        &[1, 2, 3, 4, 5, 6, 7, 1, 2, 3, 4, 5, 6, 7, 1, 2]
    );
}

#[test]
fn transmission_first_segment_gets_no_response() {
    let rts = RequestToSend::new(16, Some(2), Pgn::ProprietaryA);
    let mut transfer = Transfer::new(rts);
    assert_eq!(transfer.next(DataTransfer::new(1, [1, 2, 3, 4, 5, 6, 7])), Ok(None));
    assert!(transfer.finished().is_none());
    assert_eq!(
        transfer.next(DataTransfer::new(2, [1, 2, 3, 4, 5, 6, 7])),
        Ok(Some(Response::Cts(ClearToSend::new(Some(2), 3, Pgn::ProprietaryA))))
    );
    assert!(transfer.finished().is_none());
    assert_eq!(
        transfer.next(DataTransfer::new(3, [1, 2, 0xFF, 0xFF, 0xFF, 0xFF, 0xFF])),
        Ok(Some(Response::End(EndOfMessageAck::new(16, 3, Pgn::ProprietaryA))))
    );
}

#[test]
fn request_to_send_packet_count() {
    assert_eq!(RequestToSend::new(9, None, Pgn::ProprietaryA).total_packets(), 2);
    assert_eq!(RequestToSend::new(14, None, Pgn::ProprietaryA).total_packets(), 2);
    assert_eq!(RequestToSend::new(15, None, Pgn::ProprietaryA).total_packets(), 3);
    assert_eq!(RequestToSend::new(16, None, Pgn::ProprietaryA).total_packets(), 3);
    assert_eq!(RequestToSend::new(1785, None, Pgn::ProprietaryA).total_packets(), 255);
    let rts = RequestToSend::new(128, Some(1), Pgn::Transfer);
    assert_eq!(rts.total_size(), 128);
    assert_eq!(rts.total_packets(), 19);
    assert_eq!(rts.max_packets_per_response(), Some(1));
    assert_eq!(rts.pgn(), Pgn::Transfer);
    assert!(rts.is_valid());
}

#[test]
fn request_to_send_try_new_rejects_bad_parameters() {
    assert!(RequestToSend::try_new(8, None, Pgn::ProprietaryA).is_none());
    assert!(RequestToSend::try_new(1786, None, Pgn::ProprietaryA).is_none());
    assert!(RequestToSend::try_new(100, Some(255), Pgn::ProprietaryA).is_none());
    assert_eq!(
        RequestToSend::try_new(9, Some(254), Pgn::ProprietaryA),
        Some(RequestToSend::new(9, Some(254), Pgn::ProprietaryA))
    );
    assert_eq!(
        RequestToSend::try_new(1785, None, Pgn::ProprietaryA),
        Some(RequestToSend::new(1785, None, Pgn::ProprietaryA))
    );
}

#[test]
fn decoded_request_need_not_be_valid() {
    let raw: &[u8] = &[16, 16, 0, 9, 255, 0, 0xEF, 0];
    let rts = RequestToSend::try_from(raw).unwrap();
    assert_eq!(rts.total_size(), 16);
    assert_eq!(rts.total_packets(), 9);
    assert!(!rts.is_valid());
}

#[test]
fn request_to_send_encoding() {
    let rts = RequestToSend::new(0x0123, Some(4), Pgn::ProprietaryA);
    let bytes: [u8; 8] = rts.into();
    assert_eq!(bytes, [16, 0x23, 0x01, 42, 4, 0x00, 0xEF, 0x00]);
    let rts = RequestToSend::new(1785, None, Pgn::ProprietaryB2(0x12));
    let bytes: [u8; 8] = rts.into();
    assert_eq!(bytes, [16, 0xF9, 0x06, 255, 255, 0x12, 0xFF, 0x01]);
}

#[test]
fn request_to_send_round_trip() {
    for (size, burst, pgn) in [
        (9, None, Pgn::ProprietaryA),
        (16, Some(2), Pgn::ProprietaryB(7)),
        (1785, Some(254), Pgn::Other(0x12_3456)),
        (700, Some(0), Pgn::ProprietaryA2),
    ] {
        let rts = RequestToSend::new(size, burst, pgn);
        let bytes: [u8; 8] = rts.into();
        assert_eq!(RequestToSend::try_from(bytes.as_ref()), Ok(rts));
    }
}

#[test]
fn clear_to_send_round_trip() {
    let cts = ClearToSend::new(Some(3), 4, Pgn::ProprietaryA);
    let bytes: [u8; 8] = (&cts).into();
    assert_eq!(bytes, [17, 3, 4, 0xFF, 0xFF, 0x00, 0xEF, 0x00]);
    let back = ClearToSend::try_from(bytes.as_ref()).unwrap();
    assert_eq!(back, cts);
    assert_eq!(back.max_packets_per_response(), Some(3));
    assert_eq!(back.next_sequence(), 4);

    let cts = ClearToSend::new(None, 255, Pgn::Request);
    let bytes: [u8; 8] = (&cts).into();
    assert_eq!(bytes, [17, 255, 255, 0xFF, 0xFF, 0x00, 0xEA, 0x00]);
    assert_eq!(ClearToSend::try_from(bytes.as_ref()), Ok(cts));
}

#[test]
fn end_of_message_ack_round_trip() {
    let end = EndOfMessageAck::new(1785, 255, Pgn::BootLoadData);
    let bytes: [u8; 8] = (&end).into();
    assert_eq!(bytes, [19, 0xF9, 0x06, 255, 0xFF, 0x00, 0xD6, 0x00]);
    let back = EndOfMessageAck::try_from(bytes.as_ref()).unwrap();
    assert_eq!(back, end);
    assert_eq!(back.total_size(), 1785);
    assert_eq!(back.total_packets(), 255);
    assert_eq!(back.pgn(), Pgn::BootLoadData);
}

#[test]
fn connection_abort_round_trip() {
    let reasons = [
        (AbortReason::MaxConnections, 1),
        (AbortReason::CanceledBySystem, 2),
        (AbortReason::Timeout, 3),
        (AbortReason::CtsWhileDataTransfer, 4),
        (AbortReason::RetransmitLimitReached, 5),
        (AbortReason::UnexpectedDataTransfer, 6),
        (AbortReason::BadSequenceNumber, 7),
        (AbortReason::DuplicateSequenceNumber, 8),
        (AbortReason::MessageTooLarge, 9),
        (AbortReason::Custom, 250),
    ];
    let roles = [
        (AbortSenderRole::Sender, 0),
        (AbortSenderRole::Receiver, 1),
        (AbortSenderRole::Reserved, 2),
        (AbortSenderRole::NotSpecified, 3),
    ];
    for (reason, reason_code) in reasons {
        for (role, role_code) in roles {
            let abort = ConnectionAbort::new(reason, role, Pgn::ProprietaryA);
            let bytes: [u8; 8] = (&abort).into();
            assert_eq!(bytes, [255, reason_code, role_code, 0xFF, 0xFF, 0x00, 0xEF, 0x00]);
            let back = ConnectionAbort::try_from(bytes.as_ref()).unwrap();
            assert_eq!(back, abort);
            assert_eq!(back.reason(), reason);
            assert_eq!(back.sender_role(), role);
            assert_eq!(back.pgn(), Pgn::ProprietaryA);
        }
    }
}

#[test]
fn connection_abort_unknown_bytes_fall_back() {
    let raw: &[u8] = &[255, 77, 0b1111_1101, 0xFF, 0xFF, 0x00, 0xEF, 0x00];
    let abort = ConnectionAbort::try_from(raw).unwrap();
    assert_eq!(abort.reason(), AbortReason::Custom);
    assert_eq!(abort.sender_role(), AbortSenderRole::Receiver);
    assert_eq!(AbortReason::try_from(77), Err(77));
    assert_eq!(AbortReason::try_from(0), Err(0));
    assert_eq!(AbortReason::try_from(250), Ok(AbortReason::Custom));
    assert_eq!(AbortSenderRole::try_from(2), Ok(AbortSenderRole::Reserved));
    assert_eq!(AbortSenderRole::try_from(4), Err(4));
    assert_eq!(u8::from(&AbortReason::BadSequenceNumber), 7);
    assert_eq!(u8::from(&AbortSenderRole::NotSpecified), 3);
}

#[test]
fn data_transfer_round_trip() {
    let dt = DataTransfer::new(9, [1, 2, 3, 4, 5, 6, 7]);
    let bytes: [u8; 8] = (&dt).into();
    assert_eq!(bytes, [9, 1, 2, 3, 4, 5, 6, 7]);
    let back = DataTransfer::try_from(bytes.as_ref()).unwrap();
    assert_eq!(back, dt);
    assert_eq!(back.sequence(), 9);
    assert_eq!(back.data(), [1, 2, 3, 4, 5, 6, 7]);
}

#[test]
fn decoding_hands_back_what_it_cannot_read() {
    let short: &[u8] = &[16, 1, 2, 3];
    assert_eq!(RequestToSend::try_from(short), Err(short));
    assert_eq!(ClearToSend::try_from(short), Err(short));
    assert_eq!(EndOfMessageAck::try_from(short), Err(short));
    assert_eq!(ConnectionAbort::try_from(short), Err(short));
    assert_eq!(DataTransfer::try_from(short), Err(short));
    let long: &[u8] = &[16, 1, 2, 3, 4, 5, 6, 7, 8];
    assert_eq!(RequestToSend::try_from(long), Err(long));
    assert_eq!(DataTransfer::try_from(long), Err(long));

    let rts: &[u8] = &[16, 16, 0, 3, 2, 0, 0xEF, 0];
    assert!(RequestToSend::try_from(rts).is_ok());
    assert_eq!(ClearToSend::try_from(rts), Err(rts));
    assert_eq!(EndOfMessageAck::try_from(rts), Err(rts));
    assert_eq!(ConnectionAbort::try_from(rts), Err(rts));
    let cts: &[u8] = &[17, 2, 3, 0xFF, 0xFF, 0, 0xEF, 0];
    assert!(ClearToSend::try_from(cts).is_ok());
    assert_eq!(RequestToSend::try_from(cts), Err(cts));
    let end: &[u8] = &[19, 16, 0, 3, 0xFF, 0, 0xEF, 0];
    assert!(EndOfMessageAck::try_from(end).is_ok());
    assert_eq!(RequestToSend::try_from(end), Err(end));
    let abort: &[u8] = &[255, 7, 1, 0xFF, 0xFF, 0, 0xEF, 0];
    assert!(ConnectionAbort::try_from(abort).is_ok());
    assert_eq!(EndOfMessageAck::try_from(abort), Err(abort));
}

#[test]
fn response_encoding_follows_its_message() {
    let cts = ClearToSend::new(Some(2), 3, Pgn::ProprietaryA);
    let bytes: [u8; 8] = (&Response::Cts(cts)).into();
    assert_eq!(bytes, [17, 2, 3, 0xFF, 0xFF, 0x00, 0xEF, 0x00]);
    let end = EndOfMessageAck::new(16, 3, Pgn::ProprietaryA);
    let bytes: [u8; 8] = (&Response::End(end)).into();
    assert_eq!(bytes, [19, 16, 0, 3, 0xFF, 0x00, 0xEF, 0x00]);
}

#[test]
fn happy_path_reassembles_every_size() {
    for size in [9usize, 14, 15, 16, 100, 1779, 1785] {
        let payload = message(size);
        let rts = RequestToSend::new(size as u16, None, Pgn::ProprietaryA);
        let packets = rts.total_packets();
        let mut transfer = Transfer::new(rts);
        for sequence in 1..=packets {
            assert!(transfer.finished().is_none());
            let response = transfer.next(segment(&payload, sequence)).unwrap();
            if sequence == packets {
                assert_eq!(
                    response,
                    Some(Response::End(EndOfMessageAck::new(
                        size as u16,
                        packets,
                        Pgn::ProprietaryA
                    )))
                );
            } else {
                assert_eq!(response, None);
            }
        }
        assert_eq!(transfer.finished().unwrap(), &payload[..]);
    }
}

#[test]
fn happy_path_in_a_region() {
    let payload = message(30);
    let mut region = [0u8; 40];
    let rts = RequestToSend::new(30, Some(2), Pgn::ProprietaryA);
    let mut transfer = Transfer::new_with_storage(rts, ManagedSlice::Borrowed(&mut region[..]));
    for sequence in 1..=5u8 {
        transfer.next(segment(&payload, sequence)).unwrap();
    }
    assert_eq!(transfer.finished().unwrap(), &payload[..]);
    drop(transfer);
    assert_eq!(&region[..30], &payload[..]);
    assert_eq!(&region[30..35], &[0xFF; 5]);
    assert_eq!(&region[35..], &[0; 5]);
}

#[test]
fn owned_storage_starts_empty() {
    let payload = message(16);
    let rts = RequestToSend::new(16, None, Pgn::ProprietaryA);
    let mut transfer = Transfer::new_with_storage(rts, ManagedSlice::Owned(vec![9, 9, 9]));
    for sequence in 1..=3u8 {
        transfer.next(segment(&payload, sequence)).unwrap();
    }
    assert_eq!(transfer.finished().unwrap(), &payload[..]);
}

#[test]
fn out_of_order_segment_aborts_for_good() {
    let abort = |reason| ConnectionAbort::new(reason, AbortSenderRole::Receiver, Pgn::ProprietaryA);
    for wrong in [0u8, 1, 3, 4, 255] {
        let rts = RequestToSend::new(30, None, Pgn::ProprietaryA);
        let mut transfer = Transfer::new(rts);
        assert_eq!(transfer.next(DataTransfer::new(1, [0; 7])), Ok(None));
        assert_eq!(
            transfer.next(DataTransfer::new(wrong, [0; 7])),
            Err((Error::Sequence, abort(AbortReason::BadSequenceNumber)))
        );
        for again in [2u8, 3, wrong] {
            assert_eq!(
                transfer.next(DataTransfer::new(again, [0; 7])),
                Err((Error::PreviousAbort, abort(AbortReason::UnexpectedDataTransfer)))
            );
        }
        assert!(transfer.finished().is_none());
    }
}

#[test]
fn first_segment_must_be_number_one() {
    let rts = RequestToSend::new(30, None, Pgn::ProprietaryA);
    let mut transfer = Transfer::new(rts);
    let result = transfer.next(DataTransfer::new(2, [0; 7]));
    assert!(matches!(result, Err((Error::Sequence, _))));
}

#[test]
fn segment_after_completion_aborts() {
    let payload = message(16);
    let rts = RequestToSend::new(16, None, Pgn::ProprietaryA);
    let mut transfer = Transfer::new(rts);
    for sequence in 1..=3u8 {
        transfer.next(segment(&payload, sequence)).unwrap();
    }
    assert!(transfer.finished().is_some());
    let result = transfer.next(DataTransfer::new(4, [0; 7]));
    assert_eq!(
        result,
        Err((
            Error::Sequence,
            ConnectionAbort::new(
                AbortReason::BadSequenceNumber,
                AbortSenderRole::Receiver,
                Pgn::ProprietaryA
            )
        ))
    );
    assert!(transfer.finished().is_none());
}

#[test]
fn last_sequence_number_does_not_wrap() {
    let payload = message(1785);
    let rts = RequestToSend::new(1785, None, Pgn::ProprietaryA);
    let mut transfer = Transfer::new(rts);
    for sequence in 1..=255u8 {
        transfer.next(segment(&payload, sequence)).unwrap();
    }
    assert_eq!(transfer.finished().unwrap(), &payload[..]);
    assert!(matches!(
        transfer.next(DataTransfer::new(0, [0; 7])),
        Err((Error::Sequence, _))
    ));
}

#[test]
fn burst_cadence() {
    let payload = message(70);
    for burst in [1u8, 2, 3, 5, 10, 11] {
        let rts = RequestToSend::new(70, Some(burst), Pgn::ProprietaryA);
        let mut transfer = Transfer::new(rts);
        for sequence in 1..=10u8 {
            let response = transfer.next(segment(&payload, sequence)).unwrap();
            if sequence == 10 {
                assert_eq!(
                    response,
                    Some(Response::End(EndOfMessageAck::new(70, 10, Pgn::ProprietaryA)))
                );
            } else if sequence % burst == 0 {
                assert_eq!(
                    response,
                    Some(Response::Cts(ClearToSend::new(
                        Some(burst),
                        sequence + 1,
                        Pgn::ProprietaryA
                    )))
                );
            } else {
                assert_eq!(response, None);
            }
        }
    }
}

#[test]
fn burst_of_zero_never_clears() {
    let payload = message(30);
    let rts = RequestToSend::new(30, Some(0), Pgn::ProprietaryA);
    let mut transfer = Transfer::new(rts);
    for sequence in 1..=4u8 {
        assert_eq!(transfer.next(segment(&payload, sequence)), Ok(None));
    }
    assert!(matches!(
        transfer.next(segment(&payload, 5)),
        Ok(Some(Response::End(_)))
    ));
}

#[test]
fn unlimited_mode_never_clears() {
    let payload = message(1785);
    let rts = RequestToSend::new(1785, None, Pgn::ProprietaryA);
    let mut transfer = Transfer::new(rts);
    for sequence in 1..=254u8 {
        assert_eq!(transfer.next(segment(&payload, sequence)), Ok(None));
    }
    assert!(matches!(
        transfer.next(segment(&payload, 255)),
        Ok(Some(Response::End(_)))
    ));
}

#[test]
fn region_with_too_few_windows() {
    let payload = message(30);
    let storage_error = Err((
        Error::StorageTooSmall,
        ConnectionAbort::new(AbortReason::Custom, AbortSenderRole::Receiver, Pgn::ProprietaryA),
    ));
    // 14 bytes are two windows, 15 bytes are three: the last one is short.
    for (len, windows) in [(0usize, 0u8), (7, 1), (14, 2), (15, 3), (21, 3), (28, 4)] {
        let mut region = vec![0u8; len];
        let rts = RequestToSend::new(30, None, Pgn::ProprietaryA);
        let mut transfer = Transfer::new_with_storage(rts, ManagedSlice::Borrowed(&mut region[..]));
        for sequence in 1..=windows {
            assert_eq!(transfer.next(segment(&payload, sequence)), Ok(None));
        }
        assert_eq!(transfer.next(segment(&payload, windows + 1)), storage_error);
        assert!(matches!(
            transfer.next(segment(&payload, windows + 2)),
            Err((Error::PreviousAbort, _))
        ));
        assert!(transfer.finished().is_none());
        drop(transfer);
        let written = core::cmp::min(len, 7 * windows as usize);
        assert_eq!(&region[..written], &payload[..written]);
    }
}

#[test]
fn region_short_of_the_message_fails_on_the_last_segment() {
    let payload = message(16);
    let mut region = [0u8; 15];
    let rts = RequestToSend::new(16, None, Pgn::ProprietaryA);
    let mut transfer = Transfer::new_with_storage(rts, ManagedSlice::Borrowed(&mut region[..]));
    assert_eq!(transfer.next(segment(&payload, 1)), Ok(None));
    assert_eq!(transfer.next(segment(&payload, 2)), Ok(None));
    assert!(matches!(
        transfer.next(segment(&payload, 3)),
        Err((Error::StorageTooSmall, _))
    ));
    assert!(transfer.finished().is_none());
}

#[test]
fn region_of_exactly_the_message_size() {
    let payload = message(16);
    let mut region = [0u8; 16];
    let rts = RequestToSend::new(16, None, Pgn::ProprietaryA);
    let mut transfer = Transfer::new_with_storage(rts, ManagedSlice::Borrowed(&mut region[..]));
    for sequence in 1..=3u8 {
        transfer.next(segment(&payload, sequence)).unwrap();
    }
    assert_eq!(transfer.finished().unwrap(), &payload[..]);
}

#[test]
fn frames_survive_decoding_and_encoding() {
    let raw: [u8; 8] = [16, 0xF9, 0x06, 255, 7, 0x34, 0xFF, 0x01];
    let bytes: [u8; 8] = RequestToSend::try_from(raw.as_ref()).unwrap().into();
    assert_eq!(bytes, raw);
    let raw: [u8; 8] = [17, 255, 9, 0xFF, 0xFF, 0x00, 0xC9, 0x00];
    let bytes: [u8; 8] = (&ClearToSend::try_from(raw.as_ref()).unwrap()).into();
    assert_eq!(bytes, raw);
    let raw: [u8; 8] = [19, 9, 0, 2, 0xFF, 0x12, 0x34, 0x56];
    let bytes: [u8; 8] = (&EndOfMessageAck::try_from(raw.as_ref()).unwrap()).into();
    assert_eq!(bytes, raw);
    let raw: [u8; 8] = [255, 250, 3, 0xFF, 0xFF, 0x00, 0xEB, 0x00];
    let bytes: [u8; 8] = (&ConnectionAbort::try_from(raw.as_ref()).unwrap()).into();
    assert_eq!(bytes, raw);
    let raw: [u8; 8] = [200, 0, 1, 2, 3, 4, 5, 6];
    let bytes: [u8; 8] = (&DataTransfer::try_from(raw.as_ref()).unwrap()).into();
    assert_eq!(bytes, raw);
}
