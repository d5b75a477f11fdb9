use ansync::core_types::{DeviceId, Permission};
use ansync::files::{
    join_path, read_offer, AutoAcceptPolicy, Direction, FileTransferMessage, FilesError,
    InboundDecision, OfferSummary, ProgressEvent, ReceiveStep, ReceiveTransfer, SendTransfer,
    TransferError,
};
use ansync::hex_text::hex_encode;
use ansync::progress::{
    batch_done_arguments, encode_progress_for_kotlin, file_name, percent, plan_batch,
    progress_arguments, sending_body, sending_summary, sent_summary, share_arguments, BatchProgress,
    BatchReport, InboundCoalescer, ReceiveThrottle, TransferIds,
};

fn offered(id: u64, name: &str, content: &[u8]) -> FileTransferMessage {
    let mut t = SendTransfer::begin(true, id, Some(name.to_string()), content.len() as u64).unwrap_or_else(|_| panic!("begin"));
    for piece in content.chunks(4) {
        t.hash(piece);
    }
    t.offer().1
}

fn accepted(offer: FileTransferMessage) -> ReceiveTransfer {
    let summary = read_offer(true, offer, "").unwrap();
    let (reply, t) = ReceiveTransfer::decide(summary, InboundDecision::Accept("/in/x".to_string()));
    assert!(matches!(reply, FileTransferMessage::Accept { transfer_id: 7 }));
    t.unwrap_or_else(|_| panic!("accepted"))
}

fn event(bytes: u64, total: u64, direction: Direction) -> ProgressEvent {
    ProgressEvent { transfer_id: 3, name: "a.txt".to_string(), bytes, total, direction }
}

#[test]
fn offer_carries_the_digest_of_the_file() {
    match offered(7, "hello.txt", b"hello world") {
        FileTransferMessage::Offer { transfer_id, name, size, sha256 } => {
            assert_eq!((transfer_id, name.as_str(), size), (7, "hello.txt", 11));
            assert_eq!(
                hex_encode(&sha256),
                "b94d27b9934d3e08a52e52d7da7dabfac484efe37a5380ee9088f7ace2efcde9"
            );
        }
        _ => panic!("an offer"),
    }
}

#[test]
fn file_arrives_however_it_is_cut() {
    let content = b"hello world";
    let mut rx = accepted(offered(7, "hello.txt", content));
    let mut tx = SendTransfer::begin(true, 7, Some("hello.txt".to_string()), 11).unwrap_or_else(|_| panic!("begin"));
    let mut got: Vec<u8> = Vec::new();
    for piece in content.chunks(3) {
        let step = tx.piece(true, piece.to_vec()).unwrap();
        assert!(!step.last);
        match rx.message(step.message, "").unwrap() {
            ReceiveStep::Write { data, progress } => {
                got.extend(data);
                assert_eq!(progress.bytes, got.len() as u64);
                assert_eq!(step.progress.unwrap().bytes, progress.bytes);
                assert!(matches!(progress.direction, Direction::Receive));
            }
            ReceiveStep::Finish => panic!("not yet"),
        }
    }
    let last = tx.piece(true, Vec::new()).unwrap();
    assert!(last.last && last.progress.is_none());
    assert!(matches!(rx.message(last.message, "").unwrap(), ReceiveStep::Finish));
    assert_eq!(got, content);
    let (dest, acknowledgement, progress) = rx.finish().unwrap();
    assert_eq!(dest, "/in/x");
    assert_eq!((progress.bytes, progress.total), (11, 11));
    let (id, progress) = tx.acknowledged(acknowledgement, "").unwrap();
    assert_eq!((id, progress.bytes, progress.total), (7, 11, 11));
    assert!(matches!(progress.direction, Direction::Send));
}

#[test]
fn transfer_waits_for_its_acknowledgement() {
    let tx = || SendTransfer::begin(true, 7, None, 3).unwrap_or_else(|_| panic!("begin"));
    let other = FileTransferMessage::Complete { transfer_id: 8 };
    match tx().acknowledged(other, "Complete(8)") {
        Err(TransferError::Protocol(why)) => {
            assert_eq!(why, "expected Complete for 7, got Complete(8)")
        }
        _ => panic!("protocol"),
    }
    let no = FileTransferMessage::Reject { transfer_id: 7, reason: "full".to_string() };
    assert!(matches!(tx().acknowledged(no, ""), Err(TransferError::Rejected(why)) if why == "full"));
    assert!(tx().acknowledged(FileTransferMessage::Complete { transfer_id: 7 }, "").is_ok());
}

#[test]
fn damaged_file_is_refused() {
    let mut rx = accepted(offered(7, "a", b"abc"));
    let chunk = FileTransferMessage::Chunk { transfer_id: 7, offset: 0, data: b"abd".to_vec() };
    assert!(rx.message(chunk, "").is_ok());
    match rx.finish() {
        Err(TransferError::Integrity { expected, actual }) => {
            assert_eq!(
                expected,
                "ba7816bf8f01cfea414140de5dae2223b00361a396177a9cb410ff61f20015ad"
            );
            assert_ne!(expected, actual);
        }
        _ => panic!("integrity"),
    }
}

#[test]
fn wrong_size_is_refused() {
    let offer = read_offer(true, offered(7, "a", b"abc"), "").unwrap();
    let lying = OfferSummary { size: 4, ..offer };
    let (_, t) = ReceiveTransfer::decide(lying, InboundDecision::Accept("/x".to_string()));
    let mut rx = t.unwrap_or_else(|_| panic!("accepted"));
    let chunk = FileTransferMessage::Chunk { transfer_id: 7, offset: 0, data: b"abc".to_vec() };
    assert!(rx.message(chunk, "").is_ok());
    match rx.finish() {
        Err(TransferError::Protocol(why)) => {
            assert_eq!(why, "size mismatch: offer said 4, received 3")
        }
        _ => panic!("protocol"),
    }
}

#[test]
fn chunks_out_of_order_end_a_transfer() {
    let mut rx = accepted(offered(7, "a", b"abc"));
    let chunk = FileTransferMessage::Chunk { transfer_id: 7, offset: 1, data: b"b".to_vec() };
    match rx.message(chunk, "") {
        Err(TransferError::Protocol(why)) => {
            assert_eq!(why, "out-of-order chunk: expected offset 0, got 1")
        }
        _ => panic!("protocol"),
    }
    match rx.message(FileTransferMessage::Complete { transfer_id: 8 }, "Complete(8)") {
        Err(TransferError::Protocol(why)) => {
            assert_eq!(why, "unexpected mid-transfer: Complete(8)")
        }
        _ => panic!("protocol"),
    }
}

#[test]
fn transfers_need_permission() {
    assert!(matches!(
        SendTransfer::begin(false, 1, None, 0),
        Err(TransferError::Denied(Permission::FilesSend))
    ));
    assert!(matches!(
        read_offer(false, offered(7, "a", b"abc"), ""),
        Err(TransferError::Denied(Permission::FilesReceive))
    ));
    let mut tx = SendTransfer::begin(true, 1, None, 3).unwrap_or_else(|_| panic!("begin"));
    assert_eq!(tx.name, "unnamed");
    assert!(matches!(
        tx.piece(false, vec![1]),
        Err(TransferError::Denied(Permission::FilesSend))
    ));
}

#[test]
fn answers_to_an_offer() {
    let tx = SendTransfer::begin(true, 5, None, 3).unwrap_or_else(|_| panic!("begin"));
    assert!(tx.answered(FileTransferMessage::Accept { transfer_id: 5 }, "").is_ok());
    let no = FileTransferMessage::Reject { transfer_id: 5, reason: "full".to_string() };
    assert!(matches!(tx.answered(no, ""), Err(TransferError::Rejected(why)) if why == "full"));
    let stray = tx.answered(FileTransferMessage::Accept { transfer_id: 6 }, "Accept(6)");
    assert!(
        matches!(stray, Err(TransferError::Protocol(why)) if why == "expected Accept/Reject for 5, got Accept(6)")
    );
    let wrong = read_offer(true, FileTransferMessage::Accept { transfer_id: 5 }, "Accept(5)");
    assert!(
        matches!(wrong, Err(TransferError::Protocol(why)) if why == "expected Offer, got Accept(5)")
    );
    let offer = read_offer(true, offered(7, "a", b"abc"), "").unwrap();
    let (reply, r) = ReceiveTransfer::decide(offer, InboundDecision::Reject("no".to_string()));
    assert!(
        matches!(reply, FileTransferMessage::Reject { transfer_id: 7, reason } if reason == "no")
    );
    assert!(matches!(r, Err(TransferError::Rejected(why)) if why == "no"));
}

#[test]
fn transfer_errors_in_words() {
    assert_eq!(FilesError::NotFound.message(), "not found");
    assert_eq!(FilesError::PermissionDenied.message(), "permission denied");
    assert_eq!(FilesError::Io("x".to_string()).message(), "io: x");
    assert_eq!(
        TransferError::Denied(Permission::FilesSend).message(),
        "permission denied: FilesSend"
    );
    let e = TransferError::Integrity { expected: "a".to_string(), actual: "b".to_string() };
    assert_eq!(e.message(), "integrity: SHA-256 mismatch (a vs b)");
    assert_eq!(
        TransferError::Rejected("x".to_string()).message(),
        "transfer rejected by peer: x"
    );
    assert_eq!(TransferError::Protocol("x".to_string()).message(), "protocol violation: x");
}

#[test]
fn files_stay_in_the_directory_of_the_peer() {
    let id = DeviceId([0xab; 16]);
    let policy = AutoAcceptPolicy {
        root: "/home/me/Downloads/ansync".to_string(),
        peer_subdir: AutoAcceptPolicy::sanitize_peer_subdir("Pixel 9", &id),
    };
    let offer = OfferSummary {
        transfer_id: 1,
        name: "../../etc/passwd".to_string(),
        size: 0,
        sha256: [0; 32],
    };
    assert!(
        matches!(policy.on_offer(&offer), InboundDecision::Accept(p) if p == "/home/me/Downloads/ansync/Pixel 9/.._.._etc_passwd")
    );
    let nameless = OfferSummary { name: String::new(), ..offer };
    assert!(
        matches!(policy.on_offer(&nameless), InboundDecision::Accept(p) if p == "/home/me/Downloads/ansync/Pixel 9/unnamed")
    );
}

#[test]
fn directory_names_of_peers() {
    let id = DeviceId([0xab; 16]);
    assert_eq!(AutoAcceptPolicy::sanitize_peer_subdir("Jo's phone!!", &id), "Jo_s phone");
    assert_eq!(AutoAcceptPolicy::sanitize_peer_subdir("a//b", &id), "a_b");
    assert_eq!(
        AutoAcceptPolicy::sanitize_peer_subdir("!!", &id),
        "abababababababababababababababab"
    );
    for dots in [".", "..", " .. ", "_._"] {
        assert_eq!(AutoAcceptPolicy::sanitize_peer_subdir(dots, &id), id.hex());
    }
    assert_eq!(AutoAcceptPolicy::sanitize_peer_subdir("...", &id), "...");
}

#[test]
fn paths_are_joined() {
    assert_eq!(join_path("/a", "b"), "/a/b");
    assert_eq!(join_path("/a/", "b"), "/a/b");
    assert_eq!(join_path("/a", "/b"), "/b");
    assert_eq!(join_path("", "b"), "b");
}

#[test]
fn percentages() {
    assert_eq!(percent(0, 0), 100);
    assert_eq!(percent(1, 3), 33);
    assert_eq!(percent(3, 3), 100);
    assert_eq!(percent(9, 3), 100);
    assert_eq!(percent(u64::MAX, u64::MAX), 1);
}

#[test]
fn transfer_ids_count_up() {
    let mut ids = TransferIds::new();
    assert_eq!(ids.next_transfer_id(), 1);
    assert_eq!(ids.next_transfer_id(), 2);
    let mut last = TransferIds { next: u64::MAX };
    assert_eq!(last.next_transfer_id(), u64::MAX);
    assert_eq!(last.next_transfer_id(), 0);
}

#[test]
fn one_report_for_each_percent() {
    let mut t = ReceiveThrottle::new();
    assert!(t.passes(&event(1, 1000, Direction::Receive)));
    assert!(!t.passes(&event(9, 1000, Direction::Receive)));
    assert!(t.passes(&event(10, 1000, Direction::Receive)));
    assert!(!t.passes(&event(20, 1000, Direction::Send)));
    assert!(t.passes(&event(1000, 1000, Direction::Receive)));
    assert!(t.passes(&event(1000, 1000, Direction::Receive)));
}

#[test]
fn batch_counts_what_was_sent() {
    let mut b = BatchProgress::new(9, 2, 200);
    b.next_file();
    assert_eq!(
        b.on_host(&event(50, 100, Direction::Send)),
        Some(BatchReport { pct: 25, files_done: 0, bytes_done: 50 })
    );
    assert_eq!(b.on_host(&event(50, 100, Direction::Receive)), None);
    assert_eq!(b.on_host(&event(51, 100, Direction::Send)), None);
    assert_eq!(
        b.on_host(&event(100, 100, Direction::Send)),
        Some(BatchReport { pct: 50, files_done: 0, bytes_done: 100 })
    );
    b.next_file();
    assert_eq!(
        b.on_host(&event(100, 100, Direction::Send)),
        Some(BatchReport { pct: 100, files_done: 1, bytes_done: 200 })
    );
}

#[test]
fn each_file_of_a_batch_counts_once() {
    let mut b = BatchProgress::new(9, 3, 100);
    b.next_file();
    b.on_host(&event(100, 100, Direction::Send));
    assert_eq!(b.files_done, 1);
    assert_eq!(
        b.on_host(&event(100, 100, Direction::Send)),
        Some(BatchReport { pct: 100, files_done: 1, bytes_done: 100 })
    );
    assert_eq!(b.files_done, 1);
    b.next_file();
    b.on_host(&event(0, 0, Direction::Send));
    assert_eq!(b.files_done, 2);
    b.next_file();
    b.on_companion(&event(0, 0, Direction::Send));
    b.on_companion(&event(0, 0, Direction::Send));
    assert_eq!(b.files_done, b.total_files);
    let mut cut = BatchProgress::new(9, 1, 100);
    cut.next_file();
    cut.on_companion(&event(99, 100, Direction::Send));
    cut.on_companion(&event(100, 100, Direction::Receive));
    assert_eq!(cut.files_done, 0);
}

#[test]
fn progress_blob_layout() {
    let blob = encode_progress_for_kotlin(1, &event(2, 4, Direction::Receive), 5, 6, 7, 8);
    let mut expected: Vec<u8> = Vec::new();
    expected.extend(1u64.to_le_bytes());
    expected.extend(3u64.to_le_bytes());
    expected.extend(5u16.to_le_bytes());
    expected.extend(b"a.txt");
    expected.extend(2u64.to_le_bytes());
    expected.extend(4u64.to_le_bytes());
    expected.push(1);
    expected.extend(5u32.to_le_bytes());
    expected.extend(6u32.to_le_bytes());
    expected.extend(7u64.to_le_bytes());
    expected.extend(8u64.to_le_bytes());
    assert_eq!(blob, expected);
    let mut long = event(2, 4, Direction::Receive);
    long.name = format!("a{}", "\u{20ac}".repeat(21845));
    let blob = encode_progress_for_kotlin(1, &long, 5, 6, 7, 8);
    assert_eq!(&blob[16..18], 65533u16.to_le_bytes());
    assert_eq!(blob[18..18 + 65533], long.name.as_bytes()[..65533]);
    assert_eq!(blob[18 + 65533..][..8], 2u64.to_le_bytes());
    let mut b = BatchProgress::new(1, 5, 8);
    b.next_file();
    let sent = b.on_companion(&event(2, 4, Direction::Send)).unwrap();
    assert_eq!(sent[39], 0);
    assert_eq!(sent.len(), expected.len());
}

#[test]
fn unreadable_files_leave_a_batch() {
    let paths = vec!["/a".to_string(), "/b".to_string(), "/c".to_string()];
    let (files, total) = plan_batch(paths, &vec![Some(10), None, Some(5)]).unwrap();
    assert_eq!(files, vec![("/a".to_string(), 10), ("/c".to_string(), 5)]);
    assert_eq!(total, 15);
}

#[test]
fn names_of_files() {
    assert_eq!(file_name("/a/b.txt").as_deref(), Some("b.txt"));
    assert_eq!(file_name("/a/b/").as_deref(), Some("b"));
    assert_eq!(file_name("/a/.").as_deref(), Some("a"));
    assert_eq!(file_name("/a/..").as_deref(), None);
    assert_eq!(file_name("/").as_deref(), None);
}

#[test]
fn arrivals_are_gathered_into_one_notice() {
    let id = DeviceId([1; 16]);
    let other = DeviceId([2; 16]);
    let mut c = InboundCoalescer::new();
    let g1 = c.record(&id, "Pixel".to_string(), "/in/a.txt".to_string());
    assert_eq!(g1, 1);
    let g2 = c.record(&id, "Pixel".to_string(), "/in/b.txt".to_string());
    let o1 = c.record(&other, "Tab".to_string(), "/in/only.txt".to_string());
    assert!(c.flush_if_generation(&id, g1).is_none());
    let n = c.flush_if_generation(&id, g2).unwrap();
    assert_eq!(
        (n.peer_name.as_str(), n.summary.as_str(), n.body.as_str()),
        ("Pixel", "Received 2 files", "a.txt, b.txt")
    );
    assert!(c.flush_if_generation(&id, g2).is_none());
    let n = c.flush_if_generation(&other, o1).unwrap();
    assert_eq!((n.summary.as_str(), n.body.as_str()), ("File received", "/in/only.txt"));
    for name in ["a", "b", "c", "d"] {
        c.record(&id, "Pixel".to_string(), format!("/in/{name}"));
    }
    let n = c.flush_if_generation(&id, 4).unwrap();
    assert_eq!((n.summary.as_str(), n.body.as_str()), ("Received 4 files", "a, b, c, …"));
}

#[test]
fn notices_about_batches() {
    let report = BatchReport { pct: 47, files_done: 1, bytes_done: 5 };
    assert_eq!(sending_summary(&report, 5, "Pixel"), "Sending 2 of 5 to Pixel");
    assert_eq!(sending_body("photo.jpg", 47), "photo.jpg · 47%");
    assert_eq!(sent_summary(5, 5, "Pixel"), "Sent 5 of 5 to Pixel");
    assert_eq!(
        progress_arguments(3, "s", "b", 120),
        vec![
            "--app-name=ansync",
            "--icon=document-send",
            "--hint=int:value:100",
            "--hint=string:x-canonical-private-synchronous:ansync-xfer-3",
            "ansync · s",
            "b"
        ]
    );
    assert_eq!(
        batch_done_arguments(3, "s"),
        vec![
            "--app-name=ansync",
            "--icon=document-send",
            "--hint=string:x-canonical-private-synchronous:ansync-xfer-3",
            "ansync · s"
        ]
    );
    assert_eq!(
        share_arguments("Pixel", "s", "b"),
        vec!["--app-name=ansync", "--icon=document-send", "ansync · Pixel: s", "b"]
    );
}
