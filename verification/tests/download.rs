use whisper_transcribe::download::{
    status_is_success, DownloadAction, DownloadEvent, DownloadPhase, DownloadWorker,
};
use whisper_transcribe::messages::DownloadMessage;

fn responded(status: u16, phrase: &str, content_length: Option<u64>) -> DownloadEvent {
    DownloadEvent::Responded { status, reason_phrase: phrase.to_string(), content_length }
}

/// Feeds the events to a fresh worker and returns all messages and the
/// action asked for after each event.
fn run(events: Vec<DownloadEvent>) -> (DownloadWorker, Vec<DownloadMessage>, Vec<DownloadAction>) {
    let mut worker = DownloadWorker::new("models/ggml-tiny.bin".to_string());
    let mut sent = Vec::new();
    let mut actions = Vec::new();
    for event in events {
        let step = worker.step(event);
        sent.extend(step.messages);
        actions.push(step.action);
    }
    (worker, sent, actions)
}

fn streaming(content_length: Option<u64>) -> Vec<DownloadEvent> {
    vec![
        DownloadEvent::Started,
        DownloadEvent::DirectoryReady,
        responded(200, "OK", content_length),
        DownloadEvent::FileCreated,
    ]
}

#[test]
fn fresh_download_waits_to_be_started() {
    let worker = DownloadWorker::new("models/x.bin".to_string());
    assert_eq!(worker.phase(), DownloadPhase::Created);
    assert_eq!(worker.action(), DownloadAction::Start);
    assert_eq!(worker.destination(), "models/x.bin");
    assert_eq!(worker.bytes_done(), 0);
    assert_eq!(worker.bytes_total(), 0);
}

#[test]
fn three_chunks_are_reported_one_by_one_and_then_done() {
    let mut events = streaming(Some(400));
    events.extend([
        DownloadEvent::ChunkStored { len: 100 },
        DownloadEvent::ChunkStored { len: 250 },
        DownloadEvent::ChunkStored { len: 50 },
        DownloadEvent::StreamEnded,
        DownloadEvent::PathResolved(Some("/home/u/models/ggml-tiny.bin".to_string())),
    ]);
    let (worker, sent, actions) = run(events);
    assert_eq!(
        sent,
        vec![
            DownloadMessage::InProgress { bytes_done: 100, bytes_total: 400 },
            DownloadMessage::InProgress { bytes_done: 350, bytes_total: 400 },
            DownloadMessage::InProgress { bytes_done: 400, bytes_total: 400 },
            DownloadMessage::Done("/home/u/models/ggml-tiny.bin".to_string()),
        ]
    );
    assert_eq!(
        actions,
        vec![
            DownloadAction::CreateDirectory,
            DownloadAction::SendRequest,
            DownloadAction::CreateFile,
            DownloadAction::StoreNextChunk,
            DownloadAction::StoreNextChunk,
            DownloadAction::StoreNextChunk,
            DownloadAction::StoreNextChunk,
            DownloadAction::ResolvePath,
            DownloadAction::Stop,
        ]
    );
    assert_eq!(worker.phase(), DownloadPhase::Finished);
    assert_eq!(worker.bytes_done(), 400);
    assert_eq!(worker.bytes_total(), 400);
}

#[test]
fn unknown_length_is_reported_as_total_zero() {
    let mut events = streaming(None);
    events.extend([DownloadEvent::ChunkStored { len: 7 }, DownloadEvent::ChunkStored { len: 0 }]);
    let (worker, sent, _) = run(events);
    assert_eq!(
        sent,
        vec![
            DownloadMessage::InProgress { bytes_done: 7, bytes_total: 0 },
            DownloadMessage::InProgress { bytes_done: 7, bytes_total: 0 },
        ]
    );
    assert_eq!(worker.phase(), DownloadPhase::Streaming);
}

#[test]
fn unresolved_path_falls_back_to_the_destination() {
    let mut events = streaming(Some(0));
    events.extend([DownloadEvent::StreamEnded, DownloadEvent::PathResolved(None)]);
    let (_, sent, _) = run(events);
    assert_eq!(sent, vec![DownloadMessage::Done("models/ggml-tiny.bin".to_string())]);
}

#[test]
fn success_is_the_status_codes_from_200_to_299() {
    for status in 0..=u16::MAX {
        assert_eq!(status_is_success(status), (200..300).contains(&status), "{}", status);
    }
}

#[test]
fn other_status_is_fatal_and_named_in_the_reason() {
    let cases = [
        (404, "Not Found", "Download failed: HTTP 404 Not Found"),
        (199, "", "Download failed: HTTP 199"),
        (300, "Multiple Choices", "Download failed: HTTP 300 Multiple Choices"),
        (599, "<unknown status code>", "Download failed: HTTP 599 <unknown status code>"),
        (0, "", "Download failed: HTTP 0"),
        (65535, " ", "Download failed: HTTP 65535  "),
    ];
    for (status, phrase, reason) in cases {
        let (worker, sent, actions) = run(vec![
            DownloadEvent::Started,
            DownloadEvent::DirectoryReady,
            responded(status, phrase, Some(10)),
        ]);
        assert_eq!(sent, vec![DownloadMessage::Failed(reason.to_string())]);
        assert_eq!(actions.last(), Some(&DownloadAction::Stop));
        assert_eq!(worker.phase(), DownloadPhase::Finished);
        assert_eq!(worker.bytes_total(), 0);
    }
    for status in [200, 204, 299] {
        let (worker, sent, actions) = run(vec![
            DownloadEvent::Started,
            DownloadEvent::DirectoryReady,
            responded(status, "fine", Some(10)),
        ]);
        assert!(sent.is_empty());
        assert_eq!(actions.last(), Some(&DownloadAction::CreateFile));
        assert_eq!(worker.bytes_total(), 10);
    }
}

#[test]
fn each_failing_step_ends_the_download_with_its_reason() {
    let cases: Vec<(Vec<DownloadEvent>, &str)> = vec![
        (vec![DownloadEvent::SetupFailed], "Failed to set up download"),
        (
            vec![DownloadEvent::Started, DownloadEvent::DirectoryFailed],
            "Failed to create models directory",
        ),
        (
            vec![DownloadEvent::Started, DownloadEvent::DirectoryReady, DownloadEvent::RequestFailed],
            "Failed to start download",
        ),
        (
            vec![
                DownloadEvent::Started,
                DownloadEvent::DirectoryReady,
                responded(200, "OK", None),
                DownloadEvent::FileFailed,
            ],
            "Failed to create model file",
        ),
        (
            {
                let mut events = streaming(Some(9));
                events.push(DownloadEvent::ChunkFailed);
                events
            },
            "Error downloading chunk",
        ),
        (
            {
                let mut events = streaming(Some(9));
                events.push(DownloadEvent::WriteFailed);
                events
            },
            "Failed to write to file",
        ),
    ];
    for (events, reason) in cases {
        let (worker, sent, actions) = run(events);
        assert_eq!(sent, vec![DownloadMessage::Failed(reason.to_string())]);
        assert_eq!(actions.last(), Some(&DownloadAction::Stop));
        assert_eq!(worker.phase(), DownloadPhase::Finished);
    }
}

#[test]
fn failure_after_progress_aborts_the_remaining_chunks() {
    let mut events = streaming(Some(400));
    events.extend([
        DownloadEvent::ChunkStored { len: 100 },
        DownloadEvent::ChunkFailed,
        DownloadEvent::ChunkStored { len: 250 },
        DownloadEvent::StreamEnded,
        DownloadEvent::PathResolved(None),
    ]);
    let (worker, sent, _) = run(events);
    assert_eq!(
        sent,
        vec![
            DownloadMessage::InProgress { bytes_done: 100, bytes_total: 400 },
            DownloadMessage::Failed("Error downloading chunk".to_string()),
        ]
    );
    assert_eq!(worker.bytes_done(), 100);
}

#[test]
fn download_events_that_are_not_waited_for_are_ignored() {
    let mut worker = DownloadWorker::new("d".to_string());
    for event in [
        DownloadEvent::DirectoryReady,
        DownloadEvent::ChunkStored { len: 5 },
        DownloadEvent::StreamEnded,
        DownloadEvent::PathResolved(None),
        responded(200, "OK", Some(1)),
    ] {
        let step = worker.step(event);
        assert!(step.messages.is_empty());
        assert_eq!(step.action, DownloadAction::Start);
    }
    assert_eq!(worker.bytes_done(), 0);
    assert_eq!(worker.bytes_total(), 0);
}

#[test]
fn byte_counts_never_fall_and_one_terminal_message_ends_a_job() {
    let alphabet = |code: u32| match code {
        0 => DownloadEvent::Started,
        1 => DownloadEvent::DirectoryReady,
        2 => responded(200, "OK", Some(1000)),
        3 => responded(503, "Service Unavailable", None),
        4 => DownloadEvent::FileCreated,
        5 => DownloadEvent::ChunkStored { len: 3 },
        6 => DownloadEvent::ChunkStored { len: 0 },
        7 => DownloadEvent::WriteFailed,
        8 => DownloadEvent::StreamEnded,
        _ => DownloadEvent::PathResolved(None),
    };
    // the four opening events, then every sequence of four events over the ten kinds
    for mut code in 0..10u32.pow(4) {
        let mut events = streaming(Some(1000));
        for _ in 0..4 {
            events.push(alphabet(code % 10));
            code /= 10;
        }
        let (worker, sent, _) = run(events);
        let mut last = 0;
        for message in &sent {
            if let DownloadMessage::InProgress { bytes_done, bytes_total } = message {
                assert!(*bytes_done >= last);
                assert_eq!(*bytes_total, 1000);
                last = *bytes_done;
            }
        }
        let terminal: Vec<usize> = (0..sent.len()).filter(|i| sent[*i].is_terminal()).collect();
        if worker.phase() == DownloadPhase::Finished {
            assert_eq!(terminal, vec![sent.len() - 1]);
        } else {
            assert!(terminal.is_empty());
        }
    }
}

#[test]
fn chunk_that_would_overflow_the_count_is_not_taken() {
    let mut worker = DownloadWorker::new("d".to_string());
    for event in streaming(None) {
        assert!(worker.try_step(event).is_some());
    }
    let step = worker.try_step(DownloadEvent::ChunkStored { len: u64::MAX - 1 });
    assert_eq!(
        step.map(|s| s.messages),
        Some(vec![DownloadMessage::InProgress { bytes_done: u64::MAX - 1, bytes_total: 0 }])
    );
    assert!(worker.try_step(DownloadEvent::ChunkStored { len: 2 }).is_none());
    assert_eq!(worker.bytes_done(), u64::MAX - 1);
    assert_eq!(worker.phase(), DownloadPhase::Streaming);
    let step = worker.try_step(DownloadEvent::ChunkStored { len: 1 });
    assert_eq!(
        step.map(|s| s.messages),
        Some(vec![DownloadMessage::InProgress { bytes_done: u64::MAX, bytes_total: 0 }])
    );
    assert!(worker.try_step(DownloadEvent::StreamEnded).is_some());
    // outside the streaming phase a chunk is ignored, whatever its length
    let step = worker.try_step(DownloadEvent::ChunkStored { len: u64::MAX });
    assert_eq!(step.map(|s| s.messages), Some(Vec::new()));
}

#[test]
fn reason_holds_the_status_code_whatever_the_phrase() {
    for status in [100u16, 301, 403, 404, 418, 500, 999] {
        for phrase in ["", "Gone", "I'm a teapot"] {
            let (_, sent, _) = run(vec![
                DownloadEvent::Started,
                DownloadEvent::DirectoryReady,
                responded(status, phrase, None),
            ]);
            let expected = if phrase.is_empty() {
                format!("Download failed: HTTP {}", status)
            } else {
                format!("Download failed: HTTP {} {}", status, phrase)
            };
            assert_eq!(sent, vec![DownloadMessage::Failed(expected)]);
        }
    }
}

#[test]
fn setup_failure_is_taken_only_before_the_start() {
    let mut events = streaming(Some(5));
    events.push(DownloadEvent::SetupFailed);
    let (worker, sent, actions) = run(events);
    assert!(sent.is_empty());
    assert_eq!(actions.last(), Some(&DownloadAction::StoreNextChunk));
    assert_eq!(worker.phase(), DownloadPhase::Streaming);
}
