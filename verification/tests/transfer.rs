use droplink::checksum::Checksum;
use droplink::protocol::Message;
use droplink::transfer::{
    accepted, after_read, receive_hello, send_failure, ReadAction, ReadResult, ChunkOutcome, Decision, DecisionWait, FinishOutcome,
    HelloOutcome, OpenOutcome, OutgoingTransfer, ReplyOutcome, TransferEvent, CHUNK_SIZE,
    MAX_FILE_SIZE,
};

fn hello(size: u64, checksum: &str) -> Message {
    Message::Hello {
        sender_name: "Léa".to_string(),
        file_name: "../photo.jpg".to_string(),
        file_size: size,
        checksum: checksum.to_string(),
        transfer_id: "uuid-1234".to_string(),
    }
}

fn checksum_of(data: &[u8]) -> String {
    let mut c = Checksum::new();
    c.absorb(data);
    c.finish()
}

#[test]
fn limits_are_those_of_the_protocol() {
    assert_eq!(CHUNK_SIZE, 65536);
    assert_eq!(MAX_FILE_SIZE, 10 * 1024 * 1024 * 1024);
}

#[test]
fn oversized_file_is_rejected_without_asking() {
    match receive_hello(Some(hello(MAX_FILE_SIZE + 1, "x"))) {
        HelloOutcome::TooLarge {
            reply: Message::Error { reason },
            notice: TransferEvent::Failed { transfer_id, reason: shown },
        } => {
            assert_eq!(reason, "File too large");
            assert_eq!(transfer_id, "uuid-1234");
            assert_eq!(shown, "file too large");
        }
        _ => panic!("expected a rejection"),
    }
    assert!(matches!(receive_hello(Some(hello(MAX_FILE_SIZE, "x"))), HelloOutcome::Announced { .. }));
}

#[test]
fn only_hello_opens_a_transfer() {
    assert!(matches!(receive_hello(None), HelloOutcome::Closed));
    let accept = Message::Accept { transfer_id: "uuid-1234".to_string() };
    assert!(matches!(receive_hello(Some(accept)), HelloOutcome::Closed));
    assert!(matches!(receive_hello(Some(Message::Done)), HelloOutcome::Closed));
}

#[test]
fn announcement_is_shown_as_sent() {
    match receive_hello(Some(hello(1024, "abc123"))) {
        HelloOutcome::Announced { transfer, notice } => {
            assert_eq!(transfer.transfer_id(), "uuid-1234");
            match notice {
                TransferEvent::IncomingRequest { transfer_id, sender_name, file_name, file_size } => {
                    assert_eq!(transfer_id, "uuid-1234");
                    assert_eq!(sender_name, "Léa");
                    assert_eq!(file_name, "../photo.jpg");
                    assert_eq!(file_size, 1024);
                }
                _ => panic!("expected an incoming request"),
            }
        }
        _ => panic!("expected an announcement"),
    }
}

#[test]
fn only_an_explicit_yes_accepts() {
    assert!(accepted(DecisionWait::Answered(true)));
    assert!(!accepted(DecisionWait::Answered(false)));
    assert!(!accepted(DecisionWait::Abandoned));
    assert!(!accepted(DecisionWait::TimedOut));
}

#[test]
fn refusal_is_answered_with_refuse() {
    let HelloOutcome::Announced { transfer, .. } = receive_hello(Some(hello(10, "c"))) else {
        panic!("expected an announcement")
    };
    match transfer.decide(false) {
        Decision::Refused { reply: Message::Refuse { transfer_id } } => assert_eq!(transfer_id, "uuid-1234"),
        _ => panic!("expected a refusal"),
    }
}

#[test]
fn intact_file_is_received_and_completed() {
    let data = b"hello droplink".to_vec();
    let HelloOutcome::Announced { transfer, .. } =
        receive_hello(Some(hello(data.len() as u64, &checksum_of(&data))))
    else {
        panic!("expected an announcement")
    };
    let Decision::Accepted { reply, transfer } = transfer.decide(true) else {
        panic!("expected an acceptance")
    };
    assert!(matches!(reply, Message::Accept { ref transfer_id } if transfer_id == "uuid-1234"));
    assert_eq!(transfer.storage_name(), "photo.jpg");
    let OpenOutcome::Receiving { mut file } = transfer.open(Ok("/dl/photo.jpg".to_string())) else {
        panic!("expected the file to be open")
    };
    match file.on_chunk(&data[..5], Ok(())) {
        ChunkOutcome::Stored { notice: TransferEvent::Progress { bytes_done, total, direction, .. }, more } => {
            assert_eq!(bytes_done, 5);
            assert_eq!(total, 14);
            assert_eq!(direction, "receiving");
            assert!(more);
        }
        _ => panic!("expected progress"),
    }
    match file.on_chunk(&data[5..], Ok(())) {
        ChunkOutcome::Stored { notice: TransferEvent::Progress { bytes_done, .. }, more } => {
            assert_eq!(bytes_done, 14);
            assert!(!more);
        }
        _ => panic!("expected progress"),
    }
    match file.finish() {
        FinishOutcome::Complete { notice: TransferEvent::Complete { transfer_id, file_name, saved_path } } => {
            assert_eq!(transfer_id, "uuid-1234");
            assert_eq!(file_name, "../photo.jpg");
            assert_eq!(saved_path, "/dl/photo.jpg");
        }
        _ => panic!("expected completion"),
    }
}

#[test]
fn corrupted_file_is_removed() {
    let HelloOutcome::Announced { transfer, .. } = receive_hello(Some(hello(3, &checksum_of(b"abc")))) else {
        panic!("expected an announcement")
    };
    let Decision::Accepted { transfer, .. } = transfer.decide(true) else { panic!("expected an acceptance") };
    let OpenOutcome::Receiving { mut file } = transfer.open(Ok("/dl/x".to_string())) else {
        panic!("expected the file to be open")
    };
    assert!(matches!(file.on_chunk(b"abd", Ok(())), ChunkOutcome::Stored { more: false, .. }));
    match file.finish() {
        FinishOutcome::Corrupted { notice: TransferEvent::Failed { transfer_id, reason }, remove } => {
            assert_eq!(transfer_id, "uuid-1234");
            assert_eq!(reason, "Checksum mismatch — file corrupted");
            assert_eq!(remove, "/dl/x");
        }
        _ => panic!("expected a checksum failure"),
    }
}

#[test]
fn empty_file_takes_one_read() {
    let HelloOutcome::Announced { transfer, .. } = receive_hello(Some(hello(0, &checksum_of(b"")))) else {
        panic!("expected an announcement")
    };
    let Decision::Accepted { transfer, .. } = transfer.decide(true) else { panic!("expected an acceptance") };
    let OpenOutcome::Receiving { file } = transfer.open(Ok("/dl/empty".to_string())) else {
        panic!("expected the file to be open")
    };
    assert!(matches!(file.finish(), FinishOutcome::Complete { .. }));
}

#[test]
fn write_and_create_errors_end_the_transfer() {
    let HelloOutcome::Announced { transfer, .. } = receive_hello(Some(hello(8, "c"))) else {
        panic!("expected an announcement")
    };
    let Decision::Accepted { transfer, .. } = transfer.decide(true) else { panic!("expected an acceptance") };
    let OpenOutcome::Receiving { mut file } = transfer.open(Ok("/dl/y".to_string())) else {
        panic!("expected the file to be open")
    };
    match file.on_chunk(b"1234", Err("disk full".to_string())) {
        ChunkOutcome::WriteFailed { notice: TransferEvent::Failed { reason, .. }, remove } => {
            assert_eq!(reason, "Write error: disk full");
            assert_eq!(remove, "/dl/y");
        }
        _ => panic!("expected a write failure"),
    }

    let HelloOutcome::Announced { transfer, .. } = receive_hello(Some(hello(8, "c"))) else {
        panic!("expected an announcement")
    };
    let Decision::Accepted { transfer, .. } = transfer.decide(true) else { panic!("expected an acceptance") };
    match transfer.open(Err("permission denied".to_string())) {
        OpenOutcome::Failed { notice: TransferEvent::Failed { transfer_id, reason } } => {
            assert_eq!(transfer_id, "uuid-1234");
            assert_eq!(reason, "permission denied");
        }
        _ => panic!("expected a failure"),
    }
}

#[test]
fn sender_announces_and_streams_after_acceptance() {
    let t = OutgoingTransfer::with_id(
        "id-1".to_string(),
        "Léa".to_string(),
        "photo.jpg".to_string(),
        100_000,
        "abc123".to_string(),
    );
    match t.hello() {
        Message::Hello { sender_name, file_name, file_size, checksum, transfer_id } => {
            assert_eq!(sender_name, "Léa");
            assert_eq!(file_name, "photo.jpg");
            assert_eq!(file_size, 100_000);
            assert_eq!(checksum, "abc123");
            assert_eq!(transfer_id, "id-1");
        }
        _ => panic!("expected a hello"),
    }
    let ReplyOutcome::Accepted { mut stream } = t.on_reply(Message::Accept { transfer_id: "id-1".to_string() })
    else {
        panic!("expected to stream")
    };
    match stream.on_sent(65536) {
        TransferEvent::Progress { transfer_id, bytes_done, total, direction } => {
            assert_eq!(transfer_id, "id-1");
            assert_eq!(bytes_done, 65536);
            assert_eq!(total, 100_000);
            assert_eq!(direction, "sending");
        }
        _ => panic!("expected progress"),
    }
    assert!(matches!(stream.on_sent(34464), TransferEvent::Progress { bytes_done: 100_000, .. }));
    match stream.complete("/home/lea/photo.jpg".to_string()) {
        TransferEvent::Complete { transfer_id, file_name, saved_path } => {
            assert_eq!(transfer_id, "id-1");
            assert_eq!(file_name, "photo.jpg");
            assert_eq!(saved_path, "/home/lea/photo.jpg");
        }
        _ => panic!("expected completion"),
    }
}

#[test]
fn sender_stops_on_refusal_or_odd_reply() {
    let make = || OutgoingTransfer::with_id("id-2".into(), "A".into(), "f".into(), 1, "c".into());
    match make().on_reply(Message::Refuse { transfer_id: "id-2".to_string() }) {
        ReplyOutcome::Refused { notice: TransferEvent::Failed { transfer_id, reason }, error } => {
            assert_eq!(transfer_id, "id-2");
            assert_eq!(reason, "Refusé par le destinataire");
            assert_eq!(error, "Refused");
        }
        _ => panic!("expected a refusal"),
    }
    match make().on_reply(Message::Error { reason: "File too large".to_string() }) {
        ReplyOutcome::Unexpected { error } => assert_eq!(error, "Unexpected response"),
        _ => panic!("expected an unexpected reply"),
    }
}

#[test]
fn end_of_stream_and_read_errors_end_the_data() {
    assert!(matches!(after_read(ReadResult::Bytes(10)), ReadAction::Store(10)));
    assert!(matches!(after_read(ReadResult::Bytes(CHUNK_SIZE)), ReadAction::Store(65536)));
    assert!(matches!(after_read(ReadResult::Bytes(0)), ReadAction::Finish));
    assert!(matches!(after_read(ReadResult::Failed), ReadAction::Finish));
}

#[test]
fn events_go_to_their_channels() {
    let failed = send_failure("Refused".to_string());
    assert_eq!(failed.channel(), "transfer-failed");
    match failed {
        TransferEvent::Failed { transfer_id, reason } => {
            assert_eq!(transfer_id, "");
            assert_eq!(reason, "Refused");
        }
        _ => panic!("expected a failure"),
    }
    let request = TransferEvent::IncomingRequest {
        transfer_id: "i".into(),
        sender_name: "s".into(),
        file_name: "f".into(),
        file_size: 1,
    };
    assert_eq!(request.channel(), "incoming-transfer");
    let progress =
        TransferEvent::Progress { transfer_id: "i".into(), bytes_done: 1, total: 2, direction: "sending".into() };
    assert_eq!(progress.channel(), "transfer-progress");
    let done = TransferEvent::Complete { transfer_id: "i".into(), file_name: "f".into(), saved_path: "p".into() };
    assert_eq!(done.channel(), "transfer-complete");
}

#[test]
fn handshake_between_sender_and_receiver() {
    for accept in [true, false] {
        let sender = OutgoingTransfer::with_id(
            "id-9".to_string(),
            "Alice".to_string(),
            "report.pdf".to_string(),
            1_048_576,
            checksum_of(b"report"),
        );
        let HelloOutcome::Announced { transfer, notice } = receive_hello(Some(sender.hello())) else {
            panic!("expected an announcement")
        };
        assert!(matches!(notice, TransferEvent::IncomingRequest { ref transfer_id, ref sender_name, ref file_name, file_size: 1_048_576 }
            if transfer_id == "id-9" && sender_name == "Alice" && file_name == "report.pdf"));
        let reply = match transfer.decide(accept) {
            Decision::Accepted { reply, .. } => reply,
            Decision::Refused { reply } => reply,
        };
        match sender.on_reply(reply) {
            ReplyOutcome::Accepted { .. } => assert!(accept),
            ReplyOutcome::Refused { .. } => assert!(!accept),
            ReplyOutcome::Unexpected { .. } => panic!("a decision is never unexpected"),
        }
    }
}
