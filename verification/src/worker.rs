//! The transcription worker: what it does, and what it reports, after each
//! of the long-running steps that the caller performs for it.
//!
//! The worker loads the engine, on the accelerator first and on the
//! reference path if that fails; has the audio brought into form; runs the
//! engine; and reports the text. The caller carries out each action and
//! hands back what came of it as an event.

use crate::audio::{AudioError, AudioErrorView};
use crate::messages::{MessageView, TranscribeMessage};
use crate::text::{assemble_text, concat, trimmed};
use vstd::prelude::*;
use vstd::string::*;

verus! {

/// Where a transcription job stands.
#[derive(Clone, Copy, Debug, PartialEq, Eq, Structural)]
pub enum WorkerPhase {
    /// Nothing was done yet.
    Created,
    /// The engine is being built with acceleration asked for.
    LoadingAccelerated,
    /// The first attempt failed; the engine is being built without
    /// acceleration.
    LoadingReference,
    /// The engine stands; the audio is being brought into form.
    Normalizing,
    /// The engine runs on the audio.
    Inferring,
    /// The terminal message was sent.
    Finished,
}

/// What the caller does next for the worker.
#[derive(Clone, Copy, Debug, PartialEq, Eq, Structural)]
pub enum WorkerAction {
    /// Tell the worker that it was started.
    Start,
    /// Build the engine from the model file.
    LoadEngine { use_gpu: bool },
    /// Decode the audio file and bring it into the engine's form.
    NormalizeAudio,
    /// Run the engine on the buffer.
    RunInference,
    /// Nothing: the job has ended.
    Stop,
}

/// The step of inference that failed.
#[derive(Clone, Copy, Debug, PartialEq, Eq, Structural)]
pub enum InferenceError {
    /// The engine could not set up its working state.
    StateCreation,
    /// The engine failed while it ran.
    Run,
}

impl InferenceError {
    /// The sentence that a user is shown for this error.
    pub open spec fn message_spec(self) -> Seq<char> {
        match self {
            InferenceError::StateCreation => "Failed to create state"@,
            InferenceError::Run => "Failed to transcribe audio"@,
        }
    }

    /// The sentence that a user is shown for this error.
    pub fn message(&self) -> (text: String)
        ensures
            text@ == self.message_spec(),
    {
        match self {
            InferenceError::StateCreation => String::from_str("Failed to create state"),
            InferenceError::Run => String::from_str("Failed to transcribe audio"),
        }
    }
}

impl WorkerPhase {
    /// The place of the phase in the course of a job.
    pub open spec fn rank(self) -> nat {
        match self {
            WorkerPhase::Created => 0,
            WorkerPhase::LoadingAccelerated => 1,
            WorkerPhase::LoadingReference => 2,
            WorkerPhase::Normalizing => 3,
            WorkerPhase::Inferring => 4,
            WorkerPhase::Finished => 5,
        }
    }
}

/// What came of the action that the worker asked for.
#[derive(Clone, Debug, PartialEq, Eq)]
pub enum WorkerEvent {
    /// The worker was started.
    Started,
    /// The engine was built.
    EngineLoaded,
    /// The engine could not be built.
    EngineFailed,
    /// The audio is in the engine's form.
    AudioReady,
    /// The audio could not be brought into form.
    AudioFailed(AudioError),
    /// The engine ran and produced these segments, in this order.
    Transcribed(Vec<String>),
    /// The engine failed.
    InferenceFailed(InferenceError),
}

/// [`WorkerEvent`] with each text as a sequence of characters.
pub enum WorkerEventView {
    Started,
    EngineLoaded,
    EngineFailed,
    AudioReady,
    AudioFailed(AudioErrorView),
    Transcribed(Seq<Seq<char>>),
    InferenceFailed(InferenceError),
}

impl View for WorkerEvent {
    type V = WorkerEventView;

    open spec fn view(&self) -> WorkerEventView {
        match *self {
            WorkerEvent::Started => WorkerEventView::Started,
            WorkerEvent::EngineLoaded => WorkerEventView::EngineLoaded,
            WorkerEvent::EngineFailed => WorkerEventView::EngineFailed,
            WorkerEvent::AudioReady => WorkerEventView::AudioReady,
            WorkerEvent::AudioFailed(e) => WorkerEventView::AudioFailed(e@),
            WorkerEvent::Transcribed(segments) => WorkerEventView::Transcribed(
                segments.deep_view(),
            ),
            WorkerEvent::InferenceFailed(e) => WorkerEventView::InferenceFailed(e),
        }
    }
}

/// The reason reported when the engine could be built on neither path.
pub open spec fn model_load_reason() -> Seq<char> {
    "Failed to load Whisper model"@
}

/// The phase that follows `phase` when `event` comes in. An event that the
/// phase does not wait for changes nothing.
pub open spec fn next_phase(phase: WorkerPhase, event: WorkerEventView) -> WorkerPhase {
    match (phase, event) {
        (WorkerPhase::Created, WorkerEventView::Started) => WorkerPhase::LoadingAccelerated,
        (WorkerPhase::LoadingAccelerated, WorkerEventView::EngineLoaded) => WorkerPhase::Normalizing,
        (WorkerPhase::LoadingAccelerated, WorkerEventView::EngineFailed) => {
            WorkerPhase::LoadingReference
        },
        (WorkerPhase::LoadingReference, WorkerEventView::EngineLoaded) => WorkerPhase::Normalizing,
        (WorkerPhase::LoadingReference, WorkerEventView::EngineFailed) => WorkerPhase::Finished,
        (WorkerPhase::Normalizing, WorkerEventView::AudioReady) => WorkerPhase::Inferring,
        (WorkerPhase::Normalizing, WorkerEventView::AudioFailed(_)) => WorkerPhase::Finished,
        (WorkerPhase::Inferring, WorkerEventView::Transcribed(_)) => WorkerPhase::Finished,
        (WorkerPhase::Inferring, WorkerEventView::InferenceFailed(_)) => WorkerPhase::Finished,
        _ => phase,
    }
}

/// The messages that the worker sends when `event` comes in during `phase`,
/// in the order in which it sends them.
pub open spec fn emitted(phase: WorkerPhase, event: WorkerEventView) -> Seq<MessageView> {
    match (phase, event) {
        (WorkerPhase::Created, WorkerEventView::Started) => seq![MessageView::LoadingModel],
        (WorkerPhase::LoadingAccelerated, WorkerEventView::EngineLoaded) => seq![
            MessageView::AcceleratorInUse(true),
            MessageView::Transcribing,
        ],
        (WorkerPhase::LoadingReference, WorkerEventView::EngineLoaded) => seq![
            MessageView::AcceleratorInUse(false),
            MessageView::Transcribing,
        ],
        (WorkerPhase::LoadingReference, WorkerEventView::EngineFailed) => seq![
            MessageView::Failed(model_load_reason()),
        ],
        (WorkerPhase::Normalizing, WorkerEventView::AudioFailed(e)) => seq![
            MessageView::Failed(e.message()),
        ],
        (WorkerPhase::Inferring, WorkerEventView::Transcribed(segments)) => seq![
            MessageView::Done(trimmed(concat(segments))),
        ],
        (WorkerPhase::Inferring, WorkerEventView::InferenceFailed(e)) => seq![
            MessageView::Failed(e.message_spec()),
        ],
        _ => Seq::empty(),
    }
}

/// What the caller is to do while the worker is in `phase`.
pub open spec fn pending_action(phase: WorkerPhase) -> WorkerAction {
    match phase {
        WorkerPhase::Created => WorkerAction::Start,
        WorkerPhase::LoadingAccelerated => WorkerAction::LoadEngine { use_gpu: true },
        WorkerPhase::LoadingReference => WorkerAction::LoadEngine { use_gpu: false },
        WorkerPhase::Normalizing => WorkerAction::NormalizeAudio,
        WorkerPhase::Inferring => WorkerAction::RunInference,
        WorkerPhase::Finished => WorkerAction::Stop,
    }
}

/// What one step of the worker hands to its caller.
#[derive(Clone, Debug, PartialEq, Eq)]
pub struct WorkerStep {
    /// The messages to send, in this order, before anything else is done.
    pub messages: Vec<TranscribeMessage>,
    /// What to do then.
    pub action: WorkerAction,
}

/// The transcription worker of one job.
#[derive(Debug)]
pub struct TranscriptionWorker {
    phase: WorkerPhase,
}

impl TranscriptionWorker {
    /// Where the job stands.
    pub closed spec fn phase_spec(&self) -> WorkerPhase {
        self.phase
    }

    /// A worker that has done nothing yet.
    pub fn new() -> (worker: TranscriptionWorker)
        ensures
            worker.phase_spec() == WorkerPhase::Created,
    {
        TranscriptionWorker { phase: WorkerPhase::Created }
    }

    /// Where the job stands.
    #[verifier::when_used_as_spec(phase_spec)]
    pub fn phase(&self) -> (phase: WorkerPhase)
        ensures
            phase == self.phase_spec(),
    {
        self.phase
    }

    /// What the caller is to do now.
    pub fn action(&self) -> (action: WorkerAction)
        ensures
            action == pending_action(self.phase_spec()),
    {
        action_of(self.phase)
    }

    /// Takes in what came of the last action. The worker moves to the next
    /// phase and says which messages to send and what to do next. An event
    /// that the worker does not wait for is ignored: nothing is sent and the
    /// same action is asked for again.
    pub fn step(&mut self, event: WorkerEvent) -> (step: WorkerStep)
        ensures
            final(self).phase_spec() == next_phase(old(self).phase_spec(), event@),
            step.messages.deep_view() == emitted(old(self).phase_spec(), event@),
            step.action == pending_action(final(self).phase_spec()),
    {
        let mut messages: Vec<TranscribeMessage> = Vec::new();
        let before = self.phase;
        match (before, event) {
            (WorkerPhase::Created, WorkerEvent::Started) => {
                messages.push(TranscribeMessage::LoadingModel);
                self.phase = WorkerPhase::LoadingAccelerated;
            },
            (WorkerPhase::LoadingAccelerated, WorkerEvent::EngineLoaded) => {
                messages.push(TranscribeMessage::AcceleratorInUse(true));
                messages.push(TranscribeMessage::Transcribing);
                self.phase = WorkerPhase::Normalizing;
            },
            (WorkerPhase::LoadingAccelerated, WorkerEvent::EngineFailed) => {
                self.phase = WorkerPhase::LoadingReference;
            },
            (WorkerPhase::LoadingReference, WorkerEvent::EngineLoaded) => {
                messages.push(TranscribeMessage::AcceleratorInUse(false));
                messages.push(TranscribeMessage::Transcribing);
                self.phase = WorkerPhase::Normalizing;
            },
            (WorkerPhase::LoadingReference, WorkerEvent::EngineFailed) => {
                messages.push(
                    TranscribeMessage::Failed(String::from_str("Failed to load Whisper model")),
                );
                self.phase = WorkerPhase::Finished;
            },
            (WorkerPhase::Normalizing, WorkerEvent::AudioReady) => {
                self.phase = WorkerPhase::Inferring;
            },
            (WorkerPhase::Normalizing, WorkerEvent::AudioFailed(e)) => {
                messages.push(TranscribeMessage::Failed(e.message()));
                self.phase = WorkerPhase::Finished;
            },
            (WorkerPhase::Inferring, WorkerEvent::Transcribed(segments)) => {
                messages.push(TranscribeMessage::Done(assemble_text(&segments)));
                self.phase = WorkerPhase::Finished;
            },
            (WorkerPhase::Inferring, WorkerEvent::InferenceFailed(e)) => {
                messages.push(TranscribeMessage::Failed(e.message()));
                self.phase = WorkerPhase::Finished;
            },
            _ => {},
        }
        assert(messages.deep_view() =~= emitted(before, event@));
        WorkerStep { messages, action: action_of(self.phase) }
    }
}

/// What the caller is to do while the worker is in `phase`.
pub fn action_of(phase: WorkerPhase) -> (action: WorkerAction)
    ensures
        action == pending_action(phase),
{
    match phase {
        WorkerPhase::Created => WorkerAction::Start,
        WorkerPhase::LoadingAccelerated => WorkerAction::LoadEngine { use_gpu: true },
        WorkerPhase::LoadingReference => WorkerAction::LoadEngine { use_gpu: false },
        WorkerPhase::Normalizing => WorkerAction::NormalizeAudio,
        WorkerPhase::Inferring => WorkerAction::RunInference,
        WorkerPhase::Finished => WorkerAction::Stop,
    }
}

/// The phase that a worker in `phase` reaches through `events`, taken in
/// one after the other.
pub open spec fn run_phase(phase: WorkerPhase, events: Seq<WorkerEventView>) -> WorkerPhase
    decreases events.len(),
{
    if events.len() == 0 {
        phase
    } else {
        next_phase(run_phase(phase, events.drop_last()), events.last())
    }
}

/// Everything that a worker in `phase` sends while it takes in `events`.
pub open spec fn run_messages(phase: WorkerPhase, events: Seq<WorkerEventView>) -> Seq<
    MessageView,
>
    decreases events.len(),
{
    if events.len() == 0 {
        Seq::empty()
    } else {
        run_messages(phase, events.drop_last()) + emitted(
            run_phase(phase, events.drop_last()),
            events.last(),
        )
    }
}

/// The opening of a job whose engine was built: the start, the one notice
/// of the path that the engine runs on, and the start of transcription.
pub open spec fn opening(accelerated: bool) -> Seq<MessageView> {
    seq![
        MessageView::LoadingModel,
        MessageView::AcceleratorInUse(accelerated),
        MessageView::Transcribing,
    ]
}

/// Whether `sent` is what a worker that stands in `phase` may have sent
/// since it was made.
///
/// Before the engine stands, only the start was reported. Once it stands,
/// the accelerator notice and the start of transcription have followed, each
/// once and in this order. A finished job has sent one terminal message
/// more, as its last: a failure where the engine never stood, and a result
/// or a failure where it did.
pub open spec fn follows_protocol(sent: Seq<MessageView>, phase: WorkerPhase) -> bool {
    match phase {
        WorkerPhase::Created => sent == Seq::<MessageView>::empty(),
        WorkerPhase::LoadingAccelerated => sent == seq![MessageView::LoadingModel],
        WorkerPhase::LoadingReference => sent == seq![MessageView::LoadingModel],
        WorkerPhase::Normalizing => exists|accelerated: bool| sent == #[trigger] opening(accelerated),
        WorkerPhase::Inferring => exists|accelerated: bool| sent == #[trigger] opening(accelerated),
        WorkerPhase::Finished => {
            &&& sent.len() >= 1
            &&& sent.last().is_terminal()
            &&& {
                ||| (sent.drop_last() == seq![MessageView::LoadingModel] && sent.last() is Failed)
                ||| exists|accelerated: bool| sent.drop_last() == #[trigger] opening(accelerated)
            }
        },
    }
}

/// One step keeps the worker within its protocol.
pub proof fn lemma_step_follows_protocol(
    sent: Seq<MessageView>,
    phase: WorkerPhase,
    event: WorkerEventView,
)
    requires
        follows_protocol(sent, phase),
    ensures
        follows_protocol(sent + emitted(phase, event), next_phase(phase, event)),
{
    let after = sent + emitted(phase, event);
    let next = next_phase(phase, event);
    if emitted(phase, event).len() == 0 {
        assert(after =~= sent);
    } else {
        match (phase, event) {
            (WorkerPhase::Created, WorkerEventView::Started) => {
                assert(after =~= seq![MessageView::LoadingModel]);
            },
            (WorkerPhase::LoadingAccelerated, WorkerEventView::EngineLoaded) => {
                assert(after =~= opening(true));
            },
            (WorkerPhase::LoadingReference, WorkerEventView::EngineLoaded) => {
                assert(after =~= opening(false));
            },
            _ => {
                assert(emitted(phase, event).len() == 1);
                assert(after.drop_last() =~= sent);
                assert(after.last() == emitted(phase, event)[0]);
                if phase == WorkerPhase::Normalizing || phase == WorkerPhase::Inferring {
                    let accelerated = choose|accelerated: bool| sent == #[trigger] opening(accelerated);
                    assert(after.drop_last() == opening(accelerated));
                }
            },
        }
    }
}

/// Whatever events come in, and in whatever order, a worker sends its
/// messages in the order of the protocol: the start first, the accelerator
/// notice once and before the start of transcription, and one terminal
/// message, the last, exactly when the job has finished.
pub proof fn lemma_run_follows_protocol(events: Seq<WorkerEventView>)
    ensures
        follows_protocol(
            run_messages(WorkerPhase::Created, events),
            run_phase(WorkerPhase::Created, events),
        ),
    decreases events.len(),
{
    if events.len() > 0 {
        lemma_run_follows_protocol(events.drop_last());
        lemma_step_follows_protocol(
            run_messages(WorkerPhase::Created, events.drop_last()),
            run_phase(WorkerPhase::Created, events.drop_last()),
            events.last(),
        );
    }
}

/// A run in two parts: the second part goes on from where the first ended.
pub proof fn lemma_run_split(
    phase: WorkerPhase,
    first: Seq<WorkerEventView>,
    second: Seq<WorkerEventView>,
)
    ensures
        run_phase(phase, first + second) == run_phase(run_phase(phase, first), second),
        run_messages(phase, first + second) == run_messages(phase, first) + run_messages(
            run_phase(phase, first),
            second,
        ),
    decreases second.len(),
{
    if second.len() == 0 {
        assert(first + second =~= first);
        assert(run_messages(phase, first) + Seq::<MessageView>::empty() =~= run_messages(
            phase,
            first,
        ));
    } else {
        lemma_run_split(phase, first, second.drop_last());
        assert((first + second).drop_last() =~= first + second.drop_last());
        assert((first + second).last() == second.last());
        let middle = run_phase(phase, first);
        assert(run_messages(phase, first + second) =~= run_messages(phase, first) + run_messages(
            middle,
            second,
        ));
    }
}

/// When the engine cannot be built on the accelerator and can be built
/// without it, the reference path is tried once and reported: whatever
/// follows, the job's messages begin with the start, the notice that the
/// accelerator is not in use, and the start of transcription. If the job
/// has finished, exactly one message follows these three, and it is
/// terminal.
pub proof fn lemma_fallback_is_reported(rest: Seq<WorkerEventView>)
    ensures
        ({
            let events = seq![
                WorkerEventView::Started,
                WorkerEventView::EngineFailed,
                WorkerEventView::EngineLoaded,
            ] + rest;
            let sent = run_messages(WorkerPhase::Created, events);
            let phase = run_phase(WorkerPhase::Created, events);
            &&& opening(false).is_prefix_of(sent)
            &&& phase != WorkerPhase::Finished ==> sent == opening(false)
            &&& phase == WorkerPhase::Finished ==> sent.len() == 4 && sent[3].is_terminal()
        }),
{
    let head = seq![
        WorkerEventView::Started,
        WorkerEventView::EngineFailed,
        WorkerEventView::EngineLoaded,
    ];
    lemma_fallback_opening();
    lemma_run_split(WorkerPhase::Created, head, rest);
    lemma_after_opening(rest);
}

/// The three events of a fallback bring the worker to the engine's first
/// use with the opening of the reference path sent, after two attempts to
/// build the engine: one with acceleration, one without.
pub proof fn lemma_fallback_opening()
    ensures
        ({
            let head = seq![
                WorkerEventView::Started,
                WorkerEventView::EngineFailed,
                WorkerEventView::EngineLoaded,
            ];
            &&& run_phase(WorkerPhase::Created, head.take(1)) == WorkerPhase::LoadingAccelerated
            &&& run_phase(WorkerPhase::Created, head.take(2)) == WorkerPhase::LoadingReference
            &&& run_phase(WorkerPhase::Created, head) == WorkerPhase::Normalizing
            &&& run_messages(WorkerPhase::Created, head) == opening(false)
        }),
{
    let head = seq![
        WorkerEventView::Started,
        WorkerEventView::EngineFailed,
        WorkerEventView::EngineLoaded,
    ];
    let none = Seq::<WorkerEventView>::empty();
    let one = head.take(1);
    let two = head.take(2);
    assert(one.drop_last() =~= none);
    assert(two.drop_last() =~= one);
    assert(head.drop_last() =~= two);
    assert(run_phase(WorkerPhase::Created, none) == WorkerPhase::Created);
    assert(run_messages(WorkerPhase::Created, none) =~= Seq::<MessageView>::empty());
    assert(run_phase(WorkerPhase::Created, one) == WorkerPhase::LoadingAccelerated);
    assert(run_messages(WorkerPhase::Created, one) =~= seq![MessageView::LoadingModel]);
    assert(run_phase(WorkerPhase::Created, two) == WorkerPhase::LoadingReference);
    assert(run_messages(WorkerPhase::Created, two) =~= seq![MessageView::LoadingModel]);
    assert(run_messages(WorkerPhase::Created, head) =~= opening(false));
}

/// Once the engine stands, a job sends nothing more until it ends, and ends
/// with one terminal message.
pub proof fn lemma_after_opening(rest: Seq<WorkerEventView>)
    ensures
        ({
            let sent = run_messages(WorkerPhase::Normalizing, rest);
            let phase = run_phase(WorkerPhase::Normalizing, rest);
            &&& phase == WorkerPhase::Normalizing || phase == WorkerPhase::Inferring || phase
                == WorkerPhase::Finished
            &&& phase != WorkerPhase::Finished ==> sent == Seq::<MessageView>::empty()
            &&& phase == WorkerPhase::Finished ==> sent.len() == 1 && sent[0].is_terminal()
        }),
    decreases rest.len(),
{
    if rest.len() > 0 {
        lemma_after_opening(rest.drop_last());
        let before = run_phase(WorkerPhase::Normalizing, rest.drop_last());
        let sent_before = run_messages(WorkerPhase::Normalizing, rest.drop_last());
        let last = emitted(before, rest.last());
        if before == WorkerPhase::Finished {
            assert(sent_before + last =~= sent_before);
        } else {
            assert(sent_before + last =~= last);
        }
    }
}

/// An engine that produces no segment at all gives a successful job with
/// the empty text.
pub proof fn lemma_no_segments_is_success()
    ensures
        emitted(WorkerPhase::Inferring, WorkerEventView::Transcribed(Seq::empty())) == seq![
            MessageView::Done(Seq::empty()),
        ],
        next_phase(WorkerPhase::Inferring, WorkerEventView::Transcribed(Seq::empty()))
            == WorkerPhase::Finished,
{
    assert(concat(Seq::<Seq<char>>::empty()) == Seq::<char>::empty());
    assert(trimmed(Seq::<char>::empty()) == Seq::<char>::empty());
}

/// A job never goes back to an earlier phase, and it sends messages only
/// when it moves on. So each action is asked for in one stretch of a job at
/// most: the engine is built with acceleration at most once, and without it
/// at most once.
pub proof fn lemma_phase_never_goes_back(phase: WorkerPhase, event: WorkerEventView)
    ensures
        phase.rank() <= next_phase(phase, event).rank(),
        next_phase(phase, event) == phase ==> emitted(phase, event) == Seq::<MessageView>::empty(),
        phase == WorkerPhase::Finished ==> next_phase(phase, event) == WorkerPhase::Finished,
{
}

/// How the engine decodes: which candidates it weighs, and what it prints
/// while it runs.
#[derive(Clone, Copy, Debug, PartialEq, Eq, Structural)]
pub struct DecodingPolicy {
    /// The number of candidates that greedy decoding keeps.
    pub best_of: u32,
    pub print_special: bool,
    pub print_progress: bool,
    pub print_realtime: bool,
    pub print_timestamps: bool,
}

/// The policy of every job: greedy decoding with a single candidate, so
/// that one input gives one text, and nothing printed.
pub fn decoding_policy() -> (policy: DecodingPolicy)
    ensures
        policy == (DecodingPolicy {
            best_of: 1,
            print_special: false,
            print_progress: false,
            print_realtime: false,
            print_timestamps: false,
        }),
{
    DecodingPolicy {
        best_of: 1,
        print_special: false,
        print_progress: false,
        print_realtime: false,
        print_timestamps: false,
    }
}

} // verus!
