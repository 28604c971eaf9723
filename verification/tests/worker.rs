use whisper_transcribe::audio::{AudioError, MissingProperty, ResampleError};
use whisper_transcribe::messages::TranscribeMessage;
use whisper_transcribe::worker::{
    action_of, decoding_policy, DecodingPolicy, InferenceError, TranscriptionWorker, WorkerAction,
    WorkerEvent, WorkerPhase,
};

/// Feeds the events to a fresh worker and returns all messages and the
/// action asked for after each event.
fn run(events: Vec<WorkerEvent>) -> (TranscriptionWorker, Vec<TranscribeMessage>, Vec<WorkerAction>) {
    let mut worker = TranscriptionWorker::new();
    let mut sent = Vec::new();
    let mut actions = Vec::new();
    for event in events {
        let step = worker.step(event);
        sent.extend(step.messages);
        actions.push(step.action);
    }
    (worker, sent, actions)
}

fn segments(parts: &[&str]) -> Vec<String> {
    parts.iter().map(|p| p.to_string()).collect()
}

#[test]
fn fresh_worker_waits_to_be_started() {
    let worker = TranscriptionWorker::new();
    assert_eq!(worker.phase(), WorkerPhase::Created);
    assert_eq!(worker.action(), WorkerAction::Start);
}

#[test]
fn accelerated_job_runs_to_its_text() {
    let (worker, sent, actions) = run(vec![
        WorkerEvent::Started,
        WorkerEvent::EngineLoaded,
        WorkerEvent::AudioReady,
        WorkerEvent::Transcribed(segments(&[" Hello", " world. "])),
    ]);
    assert_eq!(
        sent,
        vec![
            TranscribeMessage::LoadingModel,
            TranscribeMessage::AcceleratorInUse(true),
            TranscribeMessage::Transcribing,
            TranscribeMessage::Done("Hello world.".to_string()),
        ]
    );
    assert_eq!(
        actions,
        vec![
            WorkerAction::LoadEngine { use_gpu: true },
            WorkerAction::NormalizeAudio,
            WorkerAction::RunInference,
            WorkerAction::Stop,
        ]
    );
    assert_eq!(worker.phase(), WorkerPhase::Finished);
}

#[test]
fn failed_acceleration_falls_back_once_and_says_so() {
    let (worker, sent, actions) = run(vec![
        WorkerEvent::Started,
        WorkerEvent::EngineFailed,
        WorkerEvent::EngineLoaded,
        WorkerEvent::AudioReady,
        WorkerEvent::Transcribed(segments(&["ok"])),
    ]);
    assert_eq!(
        sent,
        vec![
            TranscribeMessage::LoadingModel,
            TranscribeMessage::AcceleratorInUse(false),
            TranscribeMessage::Transcribing,
            TranscribeMessage::Done("ok".to_string()),
        ]
    );
    assert_eq!(
        actions,
        vec![
            WorkerAction::LoadEngine { use_gpu: true },
            WorkerAction::LoadEngine { use_gpu: false },
            WorkerAction::NormalizeAudio,
            WorkerAction::RunInference,
            WorkerAction::Stop,
        ]
    );
    assert_eq!(worker.phase(), WorkerPhase::Finished);
}

#[test]
fn fallback_job_that_fails_later_still_reports_the_reference_path() {
    let (_, sent, _) = run(vec![
        WorkerEvent::Started,
        WorkerEvent::EngineFailed,
        WorkerEvent::EngineLoaded,
        WorkerEvent::AudioFailed(AudioError::EmptyAudio),
    ]);
    assert_eq!(
        sent,
        vec![
            TranscribeMessage::LoadingModel,
            TranscribeMessage::AcceleratorInUse(false),
            TranscribeMessage::Transcribing,
            TranscribeMessage::Failed("No audio samples decoded".to_string()),
        ]
    );
}

#[test]
fn two_failed_engine_builds_end_the_job_without_inference() {
    let (worker, sent, actions) =
        run(vec![WorkerEvent::Started, WorkerEvent::EngineFailed, WorkerEvent::EngineFailed]);
    assert_eq!(
        sent,
        vec![
            TranscribeMessage::LoadingModel,
            TranscribeMessage::Failed("Failed to load Whisper model".to_string()),
        ]
    );
    assert_eq!(
        actions,
        vec![
            WorkerAction::LoadEngine { use_gpu: true },
            WorkerAction::LoadEngine { use_gpu: false },
            WorkerAction::Stop,
        ]
    );
    assert_eq!(worker.phase(), WorkerPhase::Finished);
}

#[test]
fn audio_errors_surface_with_their_sentence() {
    let errors = [
        (AudioError::OpenFailed, "Failed to open audio file"),
        (AudioError::NoAudioTrack, "No audio track found"),
        (AudioError::UnknownFormat(MissingProperty::SampleRate), "Unknown sample rate"),
        (AudioError::ReadFailed("boom".to_string()), "Error reading packet: boom"),
        (AudioError::Resample(ResampleError::Processing), "Failed to resample audio"),
    ];
    for (error, sentence) in errors {
        let (worker, sent, actions) = run(vec![
            WorkerEvent::Started,
            WorkerEvent::EngineLoaded,
            WorkerEvent::AudioFailed(error),
        ]);
        assert_eq!(sent.len(), 4);
        assert_eq!(sent[3], TranscribeMessage::Failed(sentence.to_string()));
        assert_eq!(actions.last(), Some(&WorkerAction::Stop));
        assert_eq!(worker.phase(), WorkerPhase::Finished);
    }
}

#[test]
fn inference_errors_surface_with_their_sentence() {
    let errors = [
        (InferenceError::StateCreation, "Failed to create state"),
        (InferenceError::Run, "Failed to transcribe audio"),
    ];
    for (error, sentence) in errors {
        assert_eq!(error.message(), sentence);
        let (_, sent, actions) = run(vec![
            WorkerEvent::Started,
            WorkerEvent::EngineLoaded,
            WorkerEvent::AudioReady,
            WorkerEvent::InferenceFailed(error),
        ]);
        assert_eq!(sent.len(), 4);
        assert_eq!(sent[3], TranscribeMessage::Failed(sentence.to_string()));
        assert_eq!(actions.last(), Some(&WorkerAction::Stop));
    }
}

#[test]
fn no_segments_are_a_success_with_empty_text() {
    let (worker, sent, _) = run(vec![
        WorkerEvent::Started,
        WorkerEvent::EngineLoaded,
        WorkerEvent::AudioReady,
        WorkerEvent::Transcribed(Vec::new()),
    ]);
    assert_eq!(sent.last(), Some(&TranscribeMessage::Done(String::new())));
    assert_eq!(worker.phase(), WorkerPhase::Finished);
}

#[test]
fn events_that_are_not_waited_for_are_ignored() {
    let mut worker = TranscriptionWorker::new();
    for event in [
        WorkerEvent::EngineLoaded,
        WorkerEvent::EngineFailed,
        WorkerEvent::AudioReady,
        WorkerEvent::Transcribed(segments(&["x"])),
        WorkerEvent::InferenceFailed(InferenceError::Run),
    ] {
        let step = worker.step(event);
        assert!(step.messages.is_empty());
        assert_eq!(step.action, WorkerAction::Start);
        assert_eq!(worker.phase(), WorkerPhase::Created);
    }
    worker.step(WorkerEvent::Started);
    let step = worker.step(WorkerEvent::Started);
    assert!(step.messages.is_empty());
    assert_eq!(step.action, WorkerAction::LoadEngine { use_gpu: true });
    let step = worker.step(WorkerEvent::AudioReady);
    assert!(step.messages.is_empty());
    assert_eq!(step.action, WorkerAction::LoadEngine { use_gpu: true });
}

#[test]
fn finished_worker_sends_nothing_more() {
    let (mut worker, sent, _) = run(vec![
        WorkerEvent::Started,
        WorkerEvent::EngineLoaded,
        WorkerEvent::AudioReady,
        WorkerEvent::Transcribed(segments(&["x"])),
    ]);
    assert_eq!(sent.len(), 4);
    for event in [
        WorkerEvent::Started,
        WorkerEvent::EngineLoaded,
        WorkerEvent::AudioFailed(AudioError::EmptyAudio),
        WorkerEvent::Transcribed(segments(&["y"])),
        WorkerEvent::InferenceFailed(InferenceError::Run),
    ] {
        let step = worker.step(event);
        assert!(step.messages.is_empty());
        assert_eq!(step.action, WorkerAction::Stop);
        assert_eq!(worker.phase(), WorkerPhase::Finished);
    }
}

#[test]
fn every_run_sends_at_most_one_terminal_message_and_sends_it_last() {
    let alphabet = |code: u32| match code {
        0 => WorkerEvent::Started,
        1 => WorkerEvent::EngineLoaded,
        2 => WorkerEvent::EngineFailed,
        3 => WorkerEvent::AudioReady,
        4 => WorkerEvent::AudioFailed(AudioError::EmptyAudio),
        5 => WorkerEvent::Transcribed(vec![" t ".to_string()]),
        6 => WorkerEvent::InferenceFailed(InferenceError::Run),
        _ => WorkerEvent::InferenceFailed(InferenceError::StateCreation),
    };
    // every sequence of five events over the eight kinds
    for mut code in 0..8u32.pow(5) {
        let mut events = Vec::new();
        for _ in 0..5 {
            events.push(alphabet(code % 8));
            code /= 8;
        }
        let (worker, sent, _) = run(events);
        let terminal: Vec<usize> = (0..sent.len()).filter(|i| sent[*i].is_terminal()).collect();
        if worker.phase() == WorkerPhase::Finished {
            assert_eq!(terminal, vec![sent.len() - 1]);
        } else {
            assert!(terminal.is_empty());
        }
        let notices =
            sent.iter().filter(|m| matches!(m, TranscribeMessage::AcceleratorInUse(_))).count();
        let transcribing =
            sent.iter().position(|m| matches!(m, TranscribeMessage::Transcribing));
        assert!(notices <= 1);
        if let Some(at) = transcribing {
            assert_eq!(notices, 1);
            assert!(matches!(sent[at - 1], TranscribeMessage::AcceleratorInUse(_)));
        }
        if !sent.is_empty() {
            assert_eq!(sent[0], TranscribeMessage::LoadingModel);
        }
    }
}

#[test]
fn each_phase_has_its_action() {
    assert_eq!(action_of(WorkerPhase::Created), WorkerAction::Start);
    assert_eq!(action_of(WorkerPhase::LoadingAccelerated), WorkerAction::LoadEngine { use_gpu: true });
    assert_eq!(action_of(WorkerPhase::LoadingReference), WorkerAction::LoadEngine { use_gpu: false });
    assert_eq!(action_of(WorkerPhase::Normalizing), WorkerAction::NormalizeAudio);
    assert_eq!(action_of(WorkerPhase::Inferring), WorkerAction::RunInference);
    assert_eq!(action_of(WorkerPhase::Finished), WorkerAction::Stop);
}

#[test]
fn decoding_is_greedy_and_silent() {
    assert_eq!(
        decoding_policy(),
        DecodingPolicy {
            best_of: 1,
            print_special: false,
            print_progress: false,
            print_realtime: false,
            print_timestamps: false,
        }
    );
}
