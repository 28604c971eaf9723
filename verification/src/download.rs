//! The download worker: what it does, and what it reports, after each step
//! of fetching a model file that the caller performs for it.
//!
//! The worker has the destination directory made, the request sent and the
//! file created, then takes the body chunk by chunk and reports the running
//! byte count after each. The caller carries out each action and hands back
//! what came of it as an event.

use crate::messages::{DownloadMessage, DownloadMessageView};
use crate::text::{decimal, decimal_digits};
use vstd::prelude::*;
use vstd::string::*;

verus! {

/// Where a download stands.
#[derive(Clone, Copy, Debug, PartialEq, Eq, Structural)]
pub enum DownloadPhase {
    /// Nothing was done yet.
    Created,
    /// The directory of the destination is being made.
    CreatingDirectory,
    /// The request is on its way.
    Requesting,
    /// The server answered with success; the file is being created.
    CreatingFile,
    /// The body is being received and written.
    Streaming,
    /// The body is complete; the destination's absolute path is looked up.
    ResolvingPath,
    /// The terminal message was sent.
    Finished,
}

impl DownloadPhase {
    /// The place of the phase in the course of a job.
    pub open spec fn rank(self) -> nat {
        match self {
            DownloadPhase::Created => 0,
            DownloadPhase::CreatingDirectory => 1,
            DownloadPhase::Requesting => 2,
            DownloadPhase::CreatingFile => 3,
            DownloadPhase::Streaming => 4,
            DownloadPhase::ResolvingPath => 5,
            DownloadPhase::Finished => 6,
        }
    }
}

/// What the caller does next for the worker.
#[derive(Clone, Copy, Debug, PartialEq, Eq, Structural)]
pub enum DownloadAction {
    /// Set up what the work needs, and tell the worker that it was
    /// started.
    Start,
    /// Make the directory that the destination lies in, if it has one.
    CreateDirectory,
    /// Send the request and wait for the response's head.
    SendRequest,
    /// Create the destination file, empty.
    CreateFile,
    /// Wait for the next chunk of the body and append it to the file.
    StoreNextChunk,
    /// Look up the absolute path of the destination.
    ResolvePath,
    /// Nothing: the job has ended.
    Stop,
}

/// What came of the action that the worker asked for.
#[derive(Clone, Debug, PartialEq, Eq)]
pub enum DownloadEvent {
    /// The worker was started.
    Started,
    /// The worker could not be set up to do its work.
    SetupFailed,
    /// The directory exists.
    DirectoryReady,
    /// The directory could not be made.
    DirectoryFailed,
    /// The server answered: its status code, the phrase that goes with the
    /// code (it may be empty), and the length of the body where the server
    /// states one.
    Responded { status: u16, reason_phrase: String, content_length: Option<u64> },
    /// No response came.
    RequestFailed,
    /// The file exists and is empty.
    FileCreated,
    /// The file could not be created.
    FileFailed,
    /// A chunk of `len` bytes was received and appended to the file.
    ChunkStored { len: u64 },
    /// The body broke off.
    ChunkFailed,
    /// A chunk was received and could not be written.
    WriteFailed,
    /// The body is complete.
    StreamEnded,
    /// The absolute path of the destination, if it could be found.
    PathResolved(Option<String>),
}

/// [`DownloadEvent`] with numbers unbounded and texts as sequences.
pub enum DownloadEventView {
    Started,
    SetupFailed,
    DirectoryReady,
    DirectoryFailed,
    Responded { status: u16, reason_phrase: Seq<char>, content_length: Option<nat> },
    RequestFailed,
    FileCreated,
    FileFailed,
    ChunkStored { len: nat },
    ChunkFailed,
    WriteFailed,
    StreamEnded,
    PathResolved(Option<Seq<char>>),
}

impl View for DownloadEvent {
    type V = DownloadEventView;

    open spec fn view(&self) -> DownloadEventView {
        match *self {
            DownloadEvent::Started => DownloadEventView::Started,
            DownloadEvent::SetupFailed => DownloadEventView::SetupFailed,
            DownloadEvent::DirectoryReady => DownloadEventView::DirectoryReady,
            DownloadEvent::DirectoryFailed => DownloadEventView::DirectoryFailed,
            DownloadEvent::Responded { status, reason_phrase, content_length } => {
                DownloadEventView::Responded {
                    status,
                    reason_phrase: reason_phrase@,
                    content_length: match content_length {
                        Some(len) => Some(len as nat),
                        None => None,
                    },
                }
            },
            DownloadEvent::RequestFailed => DownloadEventView::RequestFailed,
            DownloadEvent::FileCreated => DownloadEventView::FileCreated,
            DownloadEvent::FileFailed => DownloadEventView::FileFailed,
            DownloadEvent::ChunkStored { len } => DownloadEventView::ChunkStored { len: len as nat },
            DownloadEvent::ChunkFailed => DownloadEventView::ChunkFailed,
            DownloadEvent::WriteFailed => DownloadEventView::WriteFailed,
            DownloadEvent::StreamEnded => DownloadEventView::StreamEnded,
            DownloadEvent::PathResolved(path) => DownloadEventView::PathResolved(
                match path {
                    Some(p) => Some(p@),
                    None => None,
                },
            ),
        }
    }
}

/// The state of a download: its phase, where the file goes, how many bytes
/// were written, and how many the server announced (zero where it
/// announced none).
pub struct DownloadState {
    pub phase: DownloadPhase,
    pub destination: Seq<char>,
    pub bytes_done: nat,
    pub bytes_total: nat,
}

/// Whether a status code of a response stands for success.
pub open spec fn is_success(status: u16) -> bool {
    200 <= status < 300
}

/// The reason reported for a response with a status other than success:
/// it holds the status code in decimal digits, and after it, set off by a
/// space, the phrase that came with the code where there is one.
pub open spec fn status_reason(status: u16, reason_phrase: Seq<char>) -> Seq<char> {
    if reason_phrase.len() == 0 {
        "Download failed: HTTP "@ + decimal_digits(status as nat)
    } else {
        "Download failed: HTTP "@ + decimal_digits(status as nat) + " "@ + reason_phrase
    }
}

/// The reason reported when the worker could not be set up.
pub open spec fn setup_reason() -> Seq<char> {
    "Failed to set up download"@
}

/// The reason reported when the directory could not be made.
pub open spec fn directory_reason() -> Seq<char> {
    "Failed to create models directory"@
}

/// The reason reported when no response came.
pub open spec fn request_reason() -> Seq<char> {
    "Failed to start download"@
}

/// The reason reported when the file could not be created.
pub open spec fn file_reason() -> Seq<char> {
    "Failed to create model file"@
}

/// The reason reported when the body broke off.
pub open spec fn chunk_reason() -> Seq<char> {
    "Error downloading chunk"@
}

/// The reason reported when a chunk could not be written.
pub open spec fn write_reason() -> Seq<char> {
    "Failed to write to file"@
}

/// The state that follows `state` when `event` comes in. An event that the
/// phase does not wait for changes nothing.
pub open spec fn next_state(state: DownloadState, event: DownloadEventView) -> DownloadState {
    match (state.phase, event) {
        (DownloadPhase::Created, DownloadEventView::Started) => DownloadState {
            phase: DownloadPhase::CreatingDirectory,
            ..state
        },
        (DownloadPhase::Created, DownloadEventView::SetupFailed) => DownloadState {
            phase: DownloadPhase::Finished,
            ..state
        },
        (DownloadPhase::CreatingDirectory, DownloadEventView::DirectoryReady) => DownloadState {
            phase: DownloadPhase::Requesting,
            ..state
        },
        (DownloadPhase::CreatingDirectory, DownloadEventView::DirectoryFailed) => DownloadState {
            phase: DownloadPhase::Finished,
            ..state
        },
        (
            DownloadPhase::Requesting,
            DownloadEventView::Responded { status, reason_phrase, content_length },
        ) => if is_success(status) {
            DownloadState {
                phase: DownloadPhase::CreatingFile,
                bytes_total: match content_length {
                    Some(len) => len,
                    None => 0,
                },
                ..state
            }
        } else {
            DownloadState { phase: DownloadPhase::Finished, ..state }
        },
        (DownloadPhase::Requesting, DownloadEventView::RequestFailed) => DownloadState {
            phase: DownloadPhase::Finished,
            ..state
        },
        (DownloadPhase::CreatingFile, DownloadEventView::FileCreated) => DownloadState {
            phase: DownloadPhase::Streaming,
            ..state
        },
        (DownloadPhase::CreatingFile, DownloadEventView::FileFailed) => DownloadState {
            phase: DownloadPhase::Finished,
            ..state
        },
        (DownloadPhase::Streaming, DownloadEventView::ChunkStored { len }) => DownloadState {
            bytes_done: state.bytes_done + len,
            ..state
        },
        (DownloadPhase::Streaming, DownloadEventView::ChunkFailed) => DownloadState {
            phase: DownloadPhase::Finished,
            ..state
        },
        (DownloadPhase::Streaming, DownloadEventView::WriteFailed) => DownloadState {
            phase: DownloadPhase::Finished,
            ..state
        },
        (DownloadPhase::Streaming, DownloadEventView::StreamEnded) => DownloadState {
            phase: DownloadPhase::ResolvingPath,
            ..state
        },
        (DownloadPhase::ResolvingPath, DownloadEventView::PathResolved(_)) => DownloadState {
            phase: DownloadPhase::Finished,
            ..state
        },
        _ => state,
    }
}

/// The messages that the worker sends when `event` comes in at `state`.
pub open spec fn emitted(state: DownloadState, event: DownloadEventView) -> Seq<
    DownloadMessageView,
> {
    match (state.phase, event) {
        (DownloadPhase::Created, DownloadEventView::SetupFailed) => seq![
            DownloadMessageView::Failed(setup_reason()),
        ],
        (DownloadPhase::CreatingDirectory, DownloadEventView::DirectoryFailed) => seq![
            DownloadMessageView::Failed(directory_reason()),
        ],
        (
            DownloadPhase::Requesting,
            DownloadEventView::Responded { status, reason_phrase, content_length },
        ) => if is_success(status) {
            Seq::empty()
        } else {
            seq![DownloadMessageView::Failed(status_reason(status, reason_phrase))]
        },
        (DownloadPhase::Requesting, DownloadEventView::RequestFailed) => seq![
            DownloadMessageView::Failed(request_reason()),
        ],
        (DownloadPhase::CreatingFile, DownloadEventView::FileFailed) => seq![
            DownloadMessageView::Failed(file_reason()),
        ],
        (DownloadPhase::Streaming, DownloadEventView::ChunkStored { len }) => seq![
            DownloadMessageView::InProgress {
                bytes_done: state.bytes_done + len,
                bytes_total: state.bytes_total,
            },
        ],
        (DownloadPhase::Streaming, DownloadEventView::ChunkFailed) => seq![
            DownloadMessageView::Failed(chunk_reason()),
        ],
        (DownloadPhase::Streaming, DownloadEventView::WriteFailed) => seq![
            DownloadMessageView::Failed(write_reason()),
        ],
        (DownloadPhase::ResolvingPath, DownloadEventView::PathResolved(path)) => seq![
            DownloadMessageView::Done(
                match path {
                    Some(absolute) => absolute,
                    None => state.destination,
                },
            ),
        ],
        _ => Seq::empty(),
    }
}

/// What the caller is to do while the worker is in `phase`.
pub open spec fn pending_action(phase: DownloadPhase) -> DownloadAction {
    match phase {
        DownloadPhase::Created => DownloadAction::Start,
        DownloadPhase::CreatingDirectory => DownloadAction::CreateDirectory,
        DownloadPhase::Requesting => DownloadAction::SendRequest,
        DownloadPhase::CreatingFile => DownloadAction::CreateFile,
        DownloadPhase::Streaming => DownloadAction::StoreNextChunk,
        DownloadPhase::ResolvingPath => DownloadAction::ResolvePath,
        DownloadPhase::Finished => DownloadAction::Stop,
    }
}

/// What the caller is to do while the worker is in `phase`.
pub fn action_of(phase: DownloadPhase) -> (action: DownloadAction)
    ensures
        action == pending_action(phase),
{
    match phase {
        DownloadPhase::Created => DownloadAction::Start,
        DownloadPhase::CreatingDirectory => DownloadAction::CreateDirectory,
        DownloadPhase::Requesting => DownloadAction::SendRequest,
        DownloadPhase::CreatingFile => DownloadAction::CreateFile,
        DownloadPhase::Streaming => DownloadAction::StoreNextChunk,
        DownloadPhase::ResolvingPath => DownloadAction::ResolvePath,
        DownloadPhase::Finished => DownloadAction::Stop,
    }
}

/// Whether a status code of a response stands for success: the codes from
/// 200 up to 299.
pub fn status_is_success(status: u16) -> (success: bool)
    ensures
        success == is_success(status),
{
    200 <= status && status < 300
}

/// What one step of the worker hands to its caller.
#[derive(Clone, Debug, PartialEq, Eq)]
pub struct DownloadStep {
    /// The messages to send, in this order, before anything else is done.
    pub messages: Vec<DownloadMessage>,
    /// What to do then.
    pub action: DownloadAction,
}

/// The download worker of one job.
#[derive(Debug)]
pub struct DownloadWorker {
    phase: DownloadPhase,
    destination: String,
    bytes_done: u64,
    bytes_total: u64,
}

impl View for DownloadWorker {
    type V = DownloadState;

    closed spec fn view(&self) -> DownloadState {
        DownloadState {
            phase: self.phase,
            destination: self.destination@,
            bytes_done: self.bytes_done as nat,
            bytes_total: self.bytes_total as nat,
        }
    }
}

impl DownloadWorker {
    /// A worker that has done nothing yet, for a file that goes to
    /// `destination`.
    pub fn new(destination: String) -> (worker: DownloadWorker)
        ensures
            worker@ == (DownloadState {
                phase: DownloadPhase::Created,
                destination: destination@,
                bytes_done: 0,
                bytes_total: 0,
            }),
    {
        DownloadWorker { phase: DownloadPhase::Created, destination, bytes_done: 0, bytes_total: 0 }
    }

    /// Where the job stands.
    pub fn phase(&self) -> (phase: DownloadPhase)
        ensures
            phase == self@.phase,
    {
        self.phase
    }

    /// Where the file goes.
    pub fn destination(&self) -> (path: &String)
        ensures
            path@ == self@.destination,
    {
        &self.destination
    }

    /// How many bytes were written.
    pub fn bytes_done(&self) -> (count: u64)
        ensures
            count == self@.bytes_done,
    {
        self.bytes_done
    }

    /// How many bytes the server announced; zero where it announced none.
    pub fn bytes_total(&self) -> (count: u64)
        ensures
            count == self@.bytes_total,
    {
        self.bytes_total
    }

    /// What the caller is to do now.
    pub fn action(&self) -> (action: DownloadAction)
        ensures
            action == pending_action(self@.phase),
    {
        action_of(self.phase)
    }

    /// Whether the worker can take in `event`. It cannot where the event
    /// is a stored chunk that would carry the byte count beyond its type;
    /// it can take in every other event.
    pub open spec fn accepts(&self, event: DownloadEvent) -> bool {
        event matches DownloadEvent::ChunkStored { len } ==> (self@.phase
            == DownloadPhase::Streaming ==> self@.bytes_done + len <= u64::MAX)
    }

    /// Takes in what came of the last action. The worker moves to the next
    /// phase and says which messages to send and what to do next. An event
    /// that the worker does not wait for is ignored: nothing is sent and the
    /// same action is asked for again.
    pub fn step(&mut self, event: DownloadEvent) -> (step: DownloadStep)
        requires
            old(self).accepts(event),
        ensures
            final(self)@ == next_state(old(self)@, event@),
            step.messages.deep_view() == emitted(old(self)@, event@),
            step.action == pending_action(final(self)@.phase),
    {
        let mut messages: Vec<DownloadMessage> = Vec::new();
        let ghost before = self@;
        match (self.phase, event) {
            (DownloadPhase::Created, DownloadEvent::Started) => {
                self.phase = DownloadPhase::CreatingDirectory;
            },
            (DownloadPhase::Created, DownloadEvent::SetupFailed) => {
                messages.push(DownloadMessage::Failed(String::from_str("Failed to set up download")));
                self.phase = DownloadPhase::Finished;
            },
            (DownloadPhase::CreatingDirectory, DownloadEvent::DirectoryReady) => {
                self.phase = DownloadPhase::Requesting;
            },
            (DownloadPhase::CreatingDirectory, DownloadEvent::DirectoryFailed) => {
                messages.push(
                    DownloadMessage::Failed(String::from_str("Failed to create models directory")),
                );
                self.phase = DownloadPhase::Finished;
            },
            (
                DownloadPhase::Requesting,
                DownloadEvent::Responded { status, reason_phrase, content_length },
            ) => {
                if status_is_success(status) {
                    self.bytes_total =
                    match content_length {
                        Some(len) => len,
                        None => 0,
                    };
                    self.phase = DownloadPhase::CreatingFile;
                } else {
                    let mut reason = String::from_str("Download failed: HTTP ");
                    reason.append(decimal(status as u64).as_str());
                    if !reason_phrase.as_str().is_empty() {
                        reason.append(" ");
                        reason.append(reason_phrase.as_str());
                    }
                    messages.push(DownloadMessage::Failed(reason));
                    self.phase = DownloadPhase::Finished;
                }
            },
            (DownloadPhase::Requesting, DownloadEvent::RequestFailed) => {
                messages.push(DownloadMessage::Failed(String::from_str("Failed to start download")));
                self.phase = DownloadPhase::Finished;
            },
            (DownloadPhase::CreatingFile, DownloadEvent::FileCreated) => {
                self.phase = DownloadPhase::Streaming;
            },
            (DownloadPhase::CreatingFile, DownloadEvent::FileFailed) => {
                messages.push(
                    DownloadMessage::Failed(String::from_str("Failed to create model file")),
                );
                self.phase = DownloadPhase::Finished;
            },
            (DownloadPhase::Streaming, DownloadEvent::ChunkStored { len }) => {
                self.bytes_done = self.bytes_done + len;
                messages.push(
                    DownloadMessage::InProgress {
                        bytes_done: self.bytes_done,
                        bytes_total: self.bytes_total,
                    },
                );
            },
            (DownloadPhase::Streaming, DownloadEvent::ChunkFailed) => {
                messages.push(DownloadMessage::Failed(String::from_str("Error downloading chunk")));
                self.phase = DownloadPhase::Finished;
            },
            (DownloadPhase::Streaming, DownloadEvent::WriteFailed) => {
                messages.push(DownloadMessage::Failed(String::from_str("Failed to write to file")));
                self.phase = DownloadPhase::Finished;
            },
            (DownloadPhase::Streaming, DownloadEvent::StreamEnded) => {
                self.phase = DownloadPhase::ResolvingPath;
            },
            (DownloadPhase::ResolvingPath, DownloadEvent::PathResolved(path)) => {
                let local = match path {
                    Some(absolute) => absolute,
                    None => self.destination.clone(),
                };
                messages.push(DownloadMessage::Done(local));
                self.phase = DownloadPhase::Finished;
            },
            _ => {},
        }
        assert(messages.deep_view() =~= emitted(before, event@));
        DownloadStep { messages, action: action_of(self.phase) }
    }

    /// Takes in `event` as [`DownloadWorker::step`] does, if the worker can
    /// take it in. Where it cannot, the worker stays as it is and `None` is
    /// returned.
    pub fn try_step(&mut self, event: DownloadEvent) -> (step: Option<DownloadStep>)
        ensures
            match step {
                Some(taken) => {
                    &&& old(self).accepts(event)
                    &&& final(self)@ == next_state(old(self)@, event@)
                    &&& taken.messages.deep_view() == emitted(old(self)@, event@)
                    &&& taken.action == pending_action(final(self)@.phase)
                },
                None => !old(self).accepts(event) && final(self)@ == old(self)@,
            },
    {
        let fits = match (self.phase, &event) {
            (DownloadPhase::Streaming, DownloadEvent::ChunkStored { len }) => *len <= u64::MAX
                - self.bytes_done,
            _ => true,
        };
        if fits {
            Some(self.step(event))
        } else {
            None
        }
    }
}

/// The state of a worker that has done nothing yet.
pub open spec fn initial_state(destination: Seq<char>) -> DownloadState {
    DownloadState { phase: DownloadPhase::Created, destination, bytes_done: 0, bytes_total: 0 }
}

/// The state that a worker at `state` reaches through `events`, taken in
/// one after the other.
pub open spec fn run_state(state: DownloadState, events: Seq<DownloadEventView>) -> DownloadState
    decreases events.len(),
{
    if events.len() == 0 {
        state
    } else {
        next_state(run_state(state, events.drop_last()), events.last())
    }
}

/// Everything that a worker at `state` sends while it takes in `events`.
pub open spec fn run_messages(state: DownloadState, events: Seq<DownloadEventView>) -> Seq<
    DownloadMessageView,
>
    decreases events.len(),
{
    if events.len() == 0 {
        Seq::empty()
    } else {
        run_messages(state, events.drop_last()) + emitted(
            run_state(state, events.drop_last()),
            events.last(),
        )
    }
}

/// Whether `sent` consists of progress reports alone, none with a byte
/// count below that of an earlier one, and all with the total `bytes_total`
/// and a byte count of at most `bytes_done`.
pub open spec fn is_progress(sent: Seq<DownloadMessageView>, bytes_done: nat, bytes_total: nat) -> bool {
    &&& forall|i: int|
        0 <= i < sent.len() ==> {
            &&& #[trigger] sent[i] is InProgress
            &&& sent[i]->bytes_done <= bytes_done
            &&& sent[i]->bytes_total == bytes_total
        }
    &&& forall|i: int, j: int|
        0 <= i <= j < sent.len() ==> (#[trigger] sent[i])->bytes_done <= (#[trigger] sent[j])->bytes_done
}

/// Whether `sent` is what a worker at `state` may have sent since it was
/// made.
///
/// Nothing is sent before the body is received. While it is received, only
/// progress is reported, with byte counts that never fall. A finished job
/// has sent one terminal message more, as its last.
pub open spec fn follows_protocol(sent: Seq<DownloadMessageView>, state: DownloadState) -> bool {
    match state.phase {
        DownloadPhase::Streaming => is_progress(sent, state.bytes_done, state.bytes_total),
        DownloadPhase::ResolvingPath => is_progress(sent, state.bytes_done, state.bytes_total),
        DownloadPhase::Finished => {
            &&& sent.len() >= 1
            &&& sent.last().is_terminal()
            &&& is_progress(sent.drop_last(), state.bytes_done, state.bytes_total)
        },
        _ => sent == Seq::<DownloadMessageView>::empty(),
    }
}

/// One step keeps the worker within its protocol.
pub proof fn lemma_step_follows_protocol(
    sent: Seq<DownloadMessageView>,
    state: DownloadState,
    event: DownloadEventView,
)
    requires
        follows_protocol(sent, state),
    ensures
        follows_protocol(sent + emitted(state, event), next_state(state, event)),
{
    let out = emitted(state, event);
    let after = sent + out;
    let next = next_state(state, event);
    if out.len() == 0 {
        assert(after =~= sent);
    } else {
        assert(out.len() == 1);
        assert(after.drop_last() =~= sent);
        assert(after.last() == out[0]);
        if next.phase == DownloadPhase::Streaming {
            assert forall|i: int| 0 <= i < after.len() implies {
                &&& #[trigger] after[i] is InProgress
                &&& after[i]->bytes_done <= next.bytes_done
                &&& after[i]->bytes_total == next.bytes_total
            } by {
                if i < sent.len() {
                    assert(after[i] == sent[i]);
                }
            }
            assert forall|i: int, j: int| 0 <= i <= j < after.len() implies (
            #[trigger] after[i])->bytes_done <= (#[trigger] after[j])->bytes_done by {
                if j < sent.len() {
                    assert(after[i] == sent[i]);
                    assert(after[j] == sent[j]);
                } else if i < sent.len() {
                    assert(after[i] == sent[i]);
                }
            }
        }
    }
}

/// Whatever events come in, and in whatever order, a download worker sends
/// its messages in the order of the protocol.
pub proof fn lemma_run_follows_protocol(destination: Seq<char>, events: Seq<DownloadEventView>)
    ensures
        follows_protocol(
            run_messages(initial_state(destination), events),
            run_state(initial_state(destination), events),
        ),
    decreases events.len(),
{
    if events.len() > 0 {
        lemma_run_follows_protocol(destination, events.drop_last());
        lemma_step_follows_protocol(
            run_messages(initial_state(destination), events.drop_last()),
            run_state(initial_state(destination), events.drop_last()),
            events.last(),
        );
    }
}

/// The byte counts that a download reports never fall: of two progress
/// reports of one job, the later one counts at least as many bytes.
pub proof fn lemma_progress_never_falls(
    destination: Seq<char>,
    events: Seq<DownloadEventView>,
    earlier: int,
    later: int,
)
    requires
        0 <= earlier <= later < run_messages(initial_state(destination), events).len(),
        run_messages(initial_state(destination), events)[earlier] is InProgress,
        run_messages(initial_state(destination), events)[later] is InProgress,
    ensures
        run_messages(initial_state(destination), events)[earlier]->bytes_done <= run_messages(
            initial_state(destination),
            events,
        )[later]->bytes_done,
{
    lemma_run_follows_protocol(destination, events);
    let sent = run_messages(initial_state(destination), events);
    let state = run_state(initial_state(destination), events);
    if state.phase == DownloadPhase::Finished {
        let body = sent.drop_last();
        assert(later < body.len()) by {
            if later == sent.len() - 1 {
                assert(sent[later] == sent.last());
            }
        }
        assert(body[earlier] == sent[earlier]);
        assert(body[later] == sent[later]);
    }
}

/// A download ends with exactly one terminal message: a job that has
/// finished has sent one, as its last message, and a job that has not
/// finished has sent none.
pub proof fn lemma_one_terminal_message(destination: Seq<char>, events: Seq<DownloadEventView>)
    ensures
        ({
            let sent = run_messages(initial_state(destination), events);
            let state = run_state(initial_state(destination), events);
            &&& forall|i: int| 0 <= i < sent.len() - 1 ==> !(#[trigger] sent[i]).is_terminal()
            &&& state.phase == DownloadPhase::Finished <==> (sent.len() >= 1
                && sent.last().is_terminal())
        }),
{
    lemma_run_follows_protocol(destination, events);
    let sent = run_messages(initial_state(destination), events);
    let state = run_state(initial_state(destination), events);
    if state.phase == DownloadPhase::Finished {
        let body = sent.drop_last();
        assert forall|i: int| 0 <= i < sent.len() - 1 implies !(#[trigger] sent[i]).is_terminal() by {
            assert(body[i] == sent[i]);
        }
    }
}

/// A download never goes back to an earlier phase, its byte count never
/// falls, and a finished download stays as it is: nothing is fetched again.
pub proof fn lemma_state_never_goes_back(state: DownloadState, event: DownloadEventView)
    ensures
        state.phase.rank() <= next_state(state, event).phase.rank(),
        state.bytes_done <= next_state(state, event).bytes_done,
        next_state(state, event).destination == state.destination,
        state.phase == DownloadPhase::Finished ==> next_state(state, event) == state && emitted(
            state,
            event,
        ) == Seq::<DownloadMessageView>::empty(),
{
}

/// While the body is received, the last progress report tells the state
/// of the download: its byte count and its total are the worker's.
pub proof fn lemma_last_report_is_current(destination: Seq<char>, events: Seq<DownloadEventView>)
    ensures
        ({
            let sent = run_messages(initial_state(destination), events);
            let reached = run_state(initial_state(destination), events);
            (reached.phase == DownloadPhase::Streaming || reached.phase
                == DownloadPhase::ResolvingPath) && sent.len() > 0 ==> sent.last() == (
            DownloadMessageView::InProgress {
                bytes_done: reached.bytes_done,
                bytes_total: reached.bytes_total,
            })
        }),
    decreases events.len(),
{
    if events.len() > 0 {
        let earlier = events.drop_last();
        lemma_last_report_is_current(destination, earlier);
        lemma_run_follows_protocol(destination, earlier);
        let before = run_state(initial_state(destination), earlier);
        let sent_before = run_messages(initial_state(destination), earlier);
        let out = emitted(before, events.last());
        if out.len() == 0 {
            assert(sent_before + out =~= sent_before);
        } else {
            assert((sent_before + out).last() == out[0]);
        }
    }
}

} // verus!
