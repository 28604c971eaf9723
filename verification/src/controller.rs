//! The job controller: the state that a front end shows and acts on.
//!
//! The controller knows which model and which audio file are selected,
//! holds at most one mailbox for a transcription job and one for a download
//! job, and turns the messages that wait in them into the two statuses.
//! Starting a job puts the new mailbox in the place of any that is held; a
//! terminal message lets the mailbox go.

use crate::download::{initial_state, DownloadEventView, DownloadPhase};
use crate::mailbox::drain;
use crate::messages::{
    DownloadMessage,
    DownloadMessageView,
    DownloadStatus,
    DownloadStatusView,
    MessageView,
    StatusView,
    TranscribeMessage,
    TranscribeStatus,
};
use crate::models::{
    classify_extension,
    file_kind,
    lowercase,
    model_base_url,
    model_directory,
    FileKind,
    WhisperModel,
};
use crate::worker::{opening, WorkerEventView, WorkerPhase};
use std::sync::mpsc::Receiver;
use vstd::prelude::*;
use vstd::string::*;

verus! {

/// What a controller holds: the selection, the two statuses, and the two
/// mailboxes. A well-formed state holds a mailbox only for a job that has
/// not ended.
pub struct AppState {
    /// The path of the selected model file.
    pub model_path: Option<Seq<char>>,
    /// The path of the selected audio file.
    pub audio_path: Option<Seq<char>>,
    /// The status of the transcription job.
    pub status: StatusView,
    /// The mailbox of the transcription job, while one is held.
    pub mailbox: Option<Receiver<TranscribeMessage>>,
    /// Whether the last engine ran on the accelerator, once that is known.
    pub using_gpu: Option<bool>,
    /// The model that a download would fetch.
    pub selected_model: WhisperModel,
    /// The status of the download job.
    pub download_status: DownloadStatusView,
    /// The mailbox of the download job, while one is held.
    pub download_mailbox: Option<Receiver<DownloadMessage>>,
    /// Whether the environment hints at an accelerator.
    pub cuda_available: bool,
}

impl AppState {
    /// Whether a mailbox of a transcription job is held.
    pub open spec fn listening(self) -> bool {
        self.mailbox is Some
    }

    /// Whether a mailbox of a download job is held.
    pub open spec fn download_listening(self) -> bool {
        self.download_mailbox is Some
    }

    /// A mailbox is held only for a job that has not ended: with a mailbox
    /// goes a status that is not terminal.
    pub open spec fn wf(self) -> bool {
        &&& self.listening() ==> !self.status.is_terminal()
        &&& self.download_listening() ==> !self.download_status.is_terminal()
    }

    /// The state after one message of the transcription worker. Without a
    /// mailbox nothing is taken in. A terminal message closes the mailbox;
    /// any other message leaves the mailbox as it is.
    pub open spec fn after_message(self, message: MessageView) -> AppState {
        if !self.listening() {
            self
        } else {
            AppState {
                status: self.status.after(message),
                using_gpu: match message {
                    MessageView::AcceleratorInUse(on) => Some(on),
                    _ => self.using_gpu,
                },
                mailbox: if message.is_terminal() {
                    None
                } else {
                    self.mailbox
                },
                ..self
            }
        }
    }

    /// The state after `messages`, taken in one after the other.
    pub open spec fn after_messages(self, messages: Seq<MessageView>) -> AppState
        decreases messages.len(),
    {
        if messages.len() == 0 {
            self
        } else {
            self.after_messages(messages.drop_last()).after_message(messages.last())
        }
    }

    /// The state after one message of the download worker. Without a
    /// mailbox nothing is taken in. A terminal message closes the mailbox,
    /// and a finished download selects the file as the model; any other
    /// message leaves the mailbox as it is.
    pub open spec fn after_download_message(self, message: DownloadMessageView) -> AppState {
        if !self.download_listening() {
            self
        } else {
            AppState {
                download_status: self.download_status.after(message),
                model_path: match message {
                    DownloadMessageView::Done(path) => Some(path),
                    _ => self.model_path,
                },
                download_mailbox: if message.is_terminal() {
                    None
                } else {
                    self.download_mailbox
                },
                ..self
            }
        }
    }

    /// The state after `messages`, taken in one after the other.
    pub open spec fn after_download_messages(self, messages: Seq<DownloadMessageView>) -> AppState
        decreases messages.len(),
    {
        if messages.len() == 0 {
            self
        } else {
            self.after_download_messages(messages.drop_last()).after_download_message(
                messages.last(),
            )
        }
    }

    /// The state after the file at `path` was handed in and taken for
    /// `kind`: a model or an audio file becomes the selected one.
    pub open spec fn with_file(self, kind: FileKind, path: Seq<char>) -> AppState {
        match kind {
            FileKind::Model => AppState { model_path: Some(path), ..self },
            FileKind::Audio => AppState { audio_path: Some(path), ..self },
            FileKind::Unsupported => self,
        }
    }

    /// The state after a transcription job was started whose worker
    /// reports to `mailbox`: that mailbox is the one held, in place of any
    /// that was held before, and the last result is gone.
    pub open spec fn started(self, mailbox: Receiver<TranscribeMessage>) -> AppState {
        AppState { status: StatusView::LoadingModel, mailbox: Some(mailbox), ..self }
    }

    /// The state after a download job was started whose worker reports to
    /// `mailbox`: that mailbox is the one held, in place of any that was
    /// held before, and nothing is known of the length yet.
    pub open spec fn download_started(self, mailbox: Receiver<DownloadMessage>) -> AppState {
        AppState {
            download_status: DownloadStatusView::InProgress { bytes_done: 0, bytes_total: 0 },
            download_mailbox: Some(mailbox),
            ..self
        }
    }

    /// Whether the front end has anything to wait for: a mailbox is held.
    pub open spec fn is_busy(self) -> bool {
        self.listening() || self.download_listening()
    }

    /// Whether a transcription can be started: both files are selected and
    /// no transcription is running.
    pub open spec fn can_transcribe(self) -> bool {
        self.model_path is Some && self.audio_path is Some && !self.status.is_active()
    }

    /// Whether a download can be started: none is running.
    pub open spec fn can_download(self) -> bool {
        !(self.download_status is InProgress)
    }
}

/// What a worker thread is started with.
#[derive(Clone, Debug, PartialEq, Eq)]
pub struct TranscriptionJob {
    pub model_path: String,
    pub audio_path: String,
}

/// What a download thread is started with.
#[derive(Clone, Debug, PartialEq, Eq)]
pub struct DownloadJob {
    pub url: String,
    pub destination: String,
}

/// The job controller.
pub struct WhisperApp {
    model_path: Option<String>,
    audio_path: Option<String>,
    status: TranscribeStatus,
    receiver: Option<Receiver<TranscribeMessage>>,
    using_gpu: Option<bool>,
    selected_model: WhisperModel,
    download_status: DownloadStatus,
    download_receiver: Option<Receiver<DownloadMessage>>,
    cuda_available: bool,
}

impl View for WhisperApp {
    type V = AppState;

    closed spec fn view(&self) -> AppState {
        AppState {
            model_path: match self.model_path {
                Some(path) => Some(path@),
                None => None,
            },
            audio_path: match self.audio_path {
                Some(path) => Some(path@),
                None => None,
            },
            status: self.status@,
            mailbox: self.receiver,
            using_gpu: self.using_gpu,
            selected_model: self.selected_model,
            download_status: self.download_status@,
            download_mailbox: self.download_receiver,
            cuda_available: self.cuda_available,
        }
    }
}

impl WhisperApp {
    /// Every controller is well formed: it holds a mailbox only for a job
    /// that has not ended.
    #[verifier::type_invariant]
    closed spec fn well_formed(&self) -> bool {
        self@.wf()
    }

    /// A controller with nothing selected and no job running.
    pub fn new(cuda_available: bool) -> (app: WhisperApp)
        ensures
            app@.wf(),
            app@ == (AppState {
                model_path: None,
                audio_path: None,
                status: StatusView::Idle,
                mailbox: None,
                using_gpu: None,
                selected_model: WhisperModel::Tiny,
                download_status: DownloadStatusView::Idle,
                download_mailbox: None,
                cuda_available,
            }),
    {
        WhisperApp {
            model_path: None,
            audio_path: None,
            status: TranscribeStatus::Idle,
            receiver: None,
            using_gpu: None,
            selected_model: WhisperModel::Tiny,
            download_status: DownloadStatus::Idle,
            download_receiver: None,
            cuda_available,
        }
    }

    /// The path of the selected model file.
    pub fn model_path(&self) -> (path: &Option<String>)
        ensures
            path.deep_view() == self@.model_path,
    {
        &self.model_path
    }

    /// The path of the selected audio file.
    pub fn audio_path(&self) -> (path: &Option<String>)
        ensures
            path.deep_view() == self@.audio_path,
    {
        &self.audio_path
    }

    /// The status of the transcription job.
    pub fn status(&self) -> (status: &TranscribeStatus)
        ensures
            status@ == self@.status,
            self@.wf(),
    {
        proof {
            use_type_invariant(self);
        }
        &self.status
    }

    /// The text of the last successful transcription; empty while there is
    /// none.
    pub fn transcription(&self) -> (text: &str)
        ensures
            text@ == self@.status.text(),
    {
        match &self.status {
            TranscribeStatus::Done(text) => text.as_str(),
            _ => {
                proof {
                    reveal_strlit("");
                }
                assert(""@ =~= Seq::<char>::empty());
                ""
            },
        }
    }

    /// Whether the last engine ran on the accelerator, once that is known.
    pub fn using_gpu(&self) -> (using_gpu: Option<bool>)
        ensures
            using_gpu == self@.using_gpu,
    {
        self.using_gpu
    }

    /// The model that a download would fetch.
    pub fn selected_model(&self) -> (model: WhisperModel)
        ensures
            model == self@.selected_model,
    {
        self.selected_model
    }

    /// The status of the download job.
    pub fn download_status(&self) -> (status: &DownloadStatus)
        ensures
            status@ == self@.download_status,
            self@.wf(),
    {
        proof {
            use_type_invariant(self);
        }
        &self.download_status
    }

    /// Whether the environment hints at an accelerator.
    pub fn cuda_available(&self) -> (available: bool)
        ensures
            available == self@.cuda_available,
    {
        self.cuda_available
    }

    /// Whether the front end has anything to wait for.
    pub fn is_busy(&self) -> (busy: bool)
        ensures
            busy == self@.is_busy(),
            self@.wf(),
    {
        proof {
            use_type_invariant(self);
        }
        self.receiver.is_some() || self.download_receiver.is_some()
    }

    /// Whether a transcription can be started.
    pub fn can_transcribe(&self) -> (ready: bool)
        ensures
            ready == self@.can_transcribe(),
    {
        self.model_path.is_some() && self.audio_path.is_some() && !self.status.is_active()
    }

    /// Whether a download can be started.
    pub fn can_download(&self) -> (ready: bool)
        ensures
            ready == self@.can_download(),
    {
        !self.download_status.is_in_progress()
    }

    /// Selects the model file at `path`.
    pub fn set_model_path(&mut self, path: String)
        ensures
            final(self)@.wf(),
            final(self)@ == (AppState { model_path: Some(path@), ..old(self)@ }),
    {
        proof {
            use_type_invariant(&*self);
        }
        self.model_path = Some(path);
    }

    /// Selects the audio file at `path`.
    pub fn set_audio_path(&mut self, path: String)
        ensures
            final(self)@.wf(),
            final(self)@ == (AppState { audio_path: Some(path@), ..old(self)@ }),
    {
        proof {
            use_type_invariant(&*self);
        }
        self.audio_path = Some(path);
    }

    /// Selects the model that a download would fetch.
    pub fn select_model(&mut self, model: WhisperModel)
        ensures
            final(self)@.wf(),
            final(self)@ == (AppState { selected_model: model, ..old(self)@ }),
    {
        proof {
            use_type_invariant(&*self);
        }
        self.selected_model = model;
    }

    /// Takes the file at `path` for what `kind` says: a model or an audio
    /// file becomes the selected one, anything else is passed over.
    pub fn select_file(&mut self, kind: FileKind, path: String)
        ensures
            final(self)@.wf(),
            final(self)@ == old(self)@.with_file(kind, path@),
    {
        proof {
            use_type_invariant(&*self);
        }
        match kind {
            FileKind::Model => {
                self.model_path = Some(path);
            },
            FileKind::Audio => {
                self.audio_path = Some(path);
            },
            FileKind::Unsupported => {},
        }
    }

    /// Takes in a file that was dropped on the window: `extension` is the
    /// extension of its name, in any letter case. Returns what the file was
    /// taken for.
    pub fn accept_dropped_file(&mut self, path: String, extension: &str) -> (kind: FileKind)
        ensures
            final(self)@.wf(),
            kind == file_kind(lowercase(extension@)),
            final(self)@ == old(self)@.with_file(kind, path@),
    {
        proof {
            use_type_invariant(&*self);
        }
        let kind = classify_extension(extension);
        self.select_file(kind, path);
        kind
    }

    /// Forgets the last result.
    pub fn clear(&mut self)
        ensures
            final(self)@.wf(),
            final(self)@ == (AppState { status: StatusView::Idle, ..old(self)@ }),
    {
        proof {
            use_type_invariant(&*self);
        }
        self.status = TranscribeStatus::Idle;
    }

    /// Begins a transcription job whose worker reports to `mailbox`, and
    /// returns what the worker is started with. A mailbox that is still
    /// held is let go: what its worker reports from now on is not read.
    pub fn start_transcription(&mut self, mailbox: Receiver<TranscribeMessage>) -> (job:
        TranscriptionJob)
        requires
            old(self)@.model_path is Some,
            old(self)@.audio_path is Some,
        ensures
            final(self)@.wf(),
            final(self)@ == old(self)@.started(mailbox),
            final(self)@.mailbox == Some(mailbox),
            Some(job.model_path@) == old(self)@.model_path,
            Some(job.audio_path@) == old(self)@.audio_path,
    {
        proof {
            use_type_invariant(&*self);
        }
        let model_path = match &self.model_path {
            Some(path) => path.clone(),
            None => String::new(),
        };
        let audio_path = match &self.audio_path {
            Some(path) => path.clone(),
            None => String::new(),
        };
        self.status = TranscribeStatus::LoadingModel;
        self.receiver = Some(mailbox);
        TranscriptionJob { model_path, audio_path }
    }

    /// Begins a download of the selected model whose worker reports to
    /// `mailbox`, and returns what the worker is started with. A mailbox
    /// that is still held is let go.
    pub fn start_download(&mut self, mailbox: Receiver<DownloadMessage>) -> (job: DownloadJob)
        ensures
            final(self)@.wf(),
            final(self)@ == old(self)@.download_started(mailbox),
            final(self)@.download_mailbox == Some(mailbox),
            job.url@ == model_base_url() + old(self)@.selected_model.filename_spec(),
            job.destination@ == model_directory() + old(self)@.selected_model.filename_spec(),
    {
        proof {
            use_type_invariant(&*self);
        }
        let url = self.selected_model.url();
        let destination = self.selected_model.destination();
        self.download_status = DownloadStatus::InProgress { bytes_done: 0, bytes_total: 0 };
        self.download_receiver = Some(mailbox);
        DownloadJob { url, destination }
    }

    /// Takes in one message of the transcription worker.
    pub fn apply_message(&mut self, message: TranscribeMessage)
        ensures
            final(self)@.wf(),
            final(self)@ == old(self)@.after_message(message@),
    {
        proof {
            use_type_invariant(&*self);
        }
        if self.receiver.is_none() {
            return ;
        }
        if let TranscribeMessage::AcceleratorInUse(on) = message {
            self.using_gpu = Some(on);
        }
        if message.is_terminal() {
            self.receiver = None;
        }
        self.status.apply(message);
    }

    /// Takes in `messages` of the transcription worker, in their order.
    /// What follows a terminal message is ignored.
    pub fn apply_messages(&mut self, messages: Vec<TranscribeMessage>)
        ensures
            final(self)@.wf(),
            final(self)@ == old(self)@.after_messages(messages.deep_view()),
    {
        proof {
            use_type_invariant(&*self);
        }
        let ghost items = messages@;
        let ghost all = messages.deep_view();
        for message in it: messages
            invariant
                it.seq() == items,
                all.len() == items.len(),
                forall|i: int| 0 <= i < items.len() ==> all[i] == (#[trigger] items[i])@,
                self@ == old(self)@.after_messages(all.take(it.index() as int)),
        {
            assert(all.take(it.index() + 1).drop_last() =~= all.take(it.index() as int));
            self.apply_message(message);
        }
        assert(all.take(all.len() as int) =~= all);
        proof {
            use_type_invariant(&*self);
        }
    }

    /// Takes in whatever waits in the mailbox of the transcription job,
    /// without waiting for more. Without a mailbox nothing changes.
    pub fn check_messages(&mut self)
        ensures
            final(self)@.wf(),
            !old(self)@.listening() ==> final(self)@ == old(self)@,
            final(self)@.mailbox == old(self)@.mailbox || final(self)@.mailbox is None,
            exists|messages: Seq<MessageView>|
                final(self)@ == #[trigger] old(self)@.after_messages(messages),
    {
        proof {
            use_type_invariant(&*self);
        }
        let waiting = match &self.receiver {
            Some(mailbox) => drain(mailbox),
            None => Vec::new(),
        };
        proof {
            if !self@.listening() {
                lemma_deaf_to_messages(self@, waiting.deep_view());
            }
            lemma_messages_move_forward(self@, waiting.deep_view());
        }
        self.apply_messages(waiting);
    }

    /// Takes in one message of the download worker.
    pub fn apply_download_message(&mut self, message: DownloadMessage)
        ensures
            final(self)@.wf(),
            final(self)@ == old(self)@.after_download_message(message@),
    {
        proof {
            use_type_invariant(&*self);
        }
        if self.download_receiver.is_none() {
            return ;
        }
        if let DownloadMessage::Done(path) = &message {
            self.model_path = Some(path.clone());
        }
        if message.is_terminal() {
            self.download_receiver = None;
        }
        self.download_status.apply(message);
    }

    /// Takes in `messages` of the download worker, in their order. What
    /// follows a terminal message is ignored.
    pub fn apply_download_messages(&mut self, messages: Vec<DownloadMessage>)
        ensures
            final(self)@.wf(),
            final(self)@ == old(self)@.after_download_messages(messages.deep_view()),
    {
        proof {
            use_type_invariant(&*self);
        }
        let ghost items = messages@;
        let ghost all = messages.deep_view();
        for message in it: messages
            invariant
                it.seq() == items,
                all.len() == items.len(),
                forall|i: int| 0 <= i < items.len() ==> all[i] == (#[trigger] items[i])@,
                self@ == old(self)@.after_download_messages(all.take(it.index() as int)),
        {
            assert(all.take(it.index() + 1).drop_last() =~= all.take(it.index() as int));
            self.apply_download_message(message);
        }
        assert(all.take(all.len() as int) =~= all);
        proof {
            use_type_invariant(&*self);
        }
    }

    /// Takes in whatever waits in the mailbox of the download job, without
    /// waiting for more. Without a mailbox nothing changes.
    pub fn check_download_messages(&mut self)
        ensures
            final(self)@.wf(),
            !old(self)@.download_listening() ==> final(self)@ == old(self)@,
            final(self)@.download_mailbox == old(self)@.download_mailbox
                || final(self)@.download_mailbox is None,
            exists|messages: Seq<DownloadMessageView>|
                final(self)@ == #[trigger] old(self)@.after_download_messages(messages),
    {
        proof {
            use_type_invariant(&*self);
        }
        let waiting = match &self.download_receiver {
            Some(mailbox) => drain(mailbox),
            None => Vec::new(),
        };
        proof {
            if !self@.download_listening() {
                lemma_deaf_to_download_messages(self@, waiting.deep_view());
            }
            lemma_download_messages_move_forward(self@, waiting.deep_view());
        }
        self.apply_download_messages(waiting);
    }
}

/// A controller without a mailbox takes in no message of a transcription
/// worker.
pub proof fn lemma_deaf_to_messages(state: AppState, messages: Seq<MessageView>)
    requires
        !state.listening(),
    ensures
        state.after_messages(messages) == state,
    decreases messages.len(),
{
    if messages.len() > 0 {
        lemma_deaf_to_messages(state, messages.drop_last());
    }
}

/// A controller without a mailbox takes in no message of a download worker.
pub proof fn lemma_deaf_to_download_messages(state: AppState, messages: Seq<DownloadMessageView>)
    requires
        !state.download_listening(),
    ensures
        state.after_download_messages(messages) == state,
    decreases messages.len(),
{
    if messages.len() > 0 {
        lemma_deaf_to_download_messages(state, messages.drop_last());
    }
}

/// Taking in messages never moves the status of the transcription job
/// backwards, and touches nothing but that status, the accelerator notice
/// and the mailbox.
pub proof fn lemma_messages_move_forward(state: AppState, messages: Seq<MessageView>)
    ensures
        state.status.rank() <= state.after_messages(messages).status.rank(),
        state.after_messages(messages) == (AppState {
            status: state.after_messages(messages).status,
            using_gpu: state.after_messages(messages).using_gpu,
            mailbox: state.after_messages(messages).mailbox,
            ..state
        }),
        state.after_messages(messages).mailbox == state.mailbox || state.after_messages(
            messages,
        ).mailbox is None,
        state.wf() ==> state.after_messages(messages).wf(),
    decreases messages.len(),
{
    if messages.len() > 0 {
        lemma_messages_move_forward(state, messages.drop_last());
    }
}

/// Taking in messages of a download touches nothing but the status of the
/// download, the selected model and the mailbox, and the mailbox afterwards
/// is the one held before or none.
pub proof fn lemma_download_messages_move_forward(
    state: AppState,
    messages: Seq<DownloadMessageView>,
)
    ensures
        state.after_download_messages(messages) == (AppState {
            download_status: state.after_download_messages(messages).download_status,
            model_path: state.after_download_messages(messages).model_path,
            download_mailbox: state.after_download_messages(messages).download_mailbox,
            ..state
        }),
        state.after_download_messages(messages).download_mailbox == state.download_mailbox
            || state.after_download_messages(messages).download_mailbox is None,
        state.wf() ==> state.after_download_messages(messages).wf(),
    decreases messages.len(),
{
    if messages.len() > 0 {
        lemma_download_messages_move_forward(state, messages.drop_last());
    }
}

/// Whatever is done with a controller, it stays well formed: starting a
/// job, clearing the result and selecting files keep the mailbox with a
/// status that is not terminal.
pub proof fn lemma_wf_is_kept(
    state: AppState,
    mailbox: Receiver<TranscribeMessage>,
    download_mailbox: Receiver<DownloadMessage>,
    kind: FileKind,
    path: Seq<char>,
)
    requires
        state.wf(),
    ensures
        state.started(mailbox).wf(),
        state.download_started(download_mailbox).wf(),
        state.with_file(kind, path).wf(),
        (AppState { status: StatusView::Idle, ..state }).wf(),
{
}

/// A terminal message ends the job of a controller that holds a mailbox:
/// the status is the result or the failure that the message carries, and
/// the mailbox is let go.
pub proof fn lemma_terminal_message_ends_job(state: AppState, terminal: MessageView)
    requires
        state.wf(),
        state.listening(),
        terminal.is_terminal(),
    ensures
        state.after_message(terminal).mailbox is None,
        terminal matches MessageView::Done(text) ==> state.after_message(terminal).status
            == StatusView::Done(text),
        terminal matches MessageView::Failed(reason) ==> state.after_message(terminal).status
            == StatusView::Failed(reason),
{
}

/// A terminal message ends the download of a controller that holds a
/// mailbox: a finished download is shown with its path and selects the file
/// as the model; a failed download is shown with its reason and keeps the
/// model that was selected.
pub proof fn lemma_terminal_message_ends_download(state: AppState, terminal: DownloadMessageView)
    requires
        state.wf(),
        state.download_listening(),
        terminal.is_terminal(),
    ensures
        state.after_download_message(terminal).download_mailbox is None,
        terminal matches DownloadMessageView::Done(path) ==> {
            &&& state.after_download_message(terminal).download_status
                == DownloadStatusView::Done(path)
            &&& state.after_download_message(terminal).model_path == Some(path)
        },
        terminal matches DownloadMessageView::Failed(reason) ==> {
            &&& state.after_download_message(terminal).download_status
                == DownloadStatusView::Failed(reason)
            &&& state.after_download_message(terminal).model_path == state.model_path
        },
{
}

/// The first terminal message of a transcription job is the one that
/// counts: it closes the mailbox, and whatever follows it changes nothing.
pub proof fn lemma_first_terminal_message_wins(
    state: AppState,
    terminal: MessageView,
    rest: Seq<MessageView>,
)
    requires
        state.listening(),
        terminal.is_terminal(),
    ensures
        !state.after_message(terminal).listening(),
        state.after_messages(seq![terminal] + rest) == state.after_message(terminal),
    decreases rest.len(),
{
    let all = seq![terminal] + rest;
    if rest.len() == 0 {
        assert(all.drop_last() =~= Seq::<MessageView>::empty());
        assert(state.after_messages(all.drop_last()) == state);
    } else {
        lemma_first_terminal_message_wins(state, terminal, rest.drop_last());
        assert(all.drop_last() =~= seq![terminal] + rest.drop_last());
    }
}

/// The first terminal message of a download job is the one that counts.
pub proof fn lemma_first_terminal_download_message_wins(
    state: AppState,
    terminal: DownloadMessageView,
    rest: Seq<DownloadMessageView>,
)
    requires
        state.download_listening(),
        terminal.is_terminal(),
    ensures
        !state.after_download_message(terminal).download_listening(),
        state.after_download_messages(seq![terminal] + rest) == state.after_download_message(
            terminal,
        ),
    decreases rest.len(),
{
    let all = seq![terminal] + rest;
    if rest.len() == 0 {
        assert(all.drop_last() =~= Seq::<DownloadMessageView>::empty());
        assert(state.after_download_messages(all.drop_last()) == state);
    } else {
        lemma_first_terminal_download_message_wins(state, terminal, rest.drop_last());
        assert(all.drop_last() =~= seq![terminal] + rest.drop_last());
    }
}

/// Of the progress reports of a download that is still running, the last
/// one is the one that is shown.
pub proof fn lemma_last_progress_wins(
    state: AppState,
    earlier: Seq<DownloadMessageView>,
    bytes_done: nat,
    bytes_total: nat,
)
    requires
        state.after_download_messages(earlier).download_listening(),
        !state.after_download_messages(earlier).download_status.is_terminal(),
    ensures
        state.after_download_messages(
            earlier + seq![DownloadMessageView::InProgress { bytes_done, bytes_total }],
        ).download_status == (DownloadStatusView::InProgress { bytes_done, bytes_total }),
{
    let last = DownloadMessageView::InProgress { bytes_done, bytes_total };
    let all = earlier + seq![last];
    assert(all.drop_last() =~= earlier);
    assert(all.last() == last);
}

/// Taking in two runs of messages, one after the other, is taking in the
/// two as one.
pub proof fn lemma_messages_in_two_parts(
    state: AppState,
    first: Seq<MessageView>,
    second: Seq<MessageView>,
)
    ensures
        state.after_messages(first + second) == state.after_messages(first).after_messages(second),
    decreases second.len(),
{
    if second.len() == 0 {
        assert(first + second =~= first);
    } else {
        lemma_messages_in_two_parts(state, first, second.drop_last());
        assert((first + second).drop_last() =~= first + second.drop_last());
        assert((first + second).last() == second.last());
    }
}

/// What a controller shows of a job follows the job's worker.
///
/// Take a controller that has just started a job, and let it take in all
/// that the worker has sent after any events whatever. Then the mailbox is
/// held exactly while the worker has not finished; the status is the
/// loading of the model until the engine stands, and transcription from
/// then on, with the accelerator notice taken in; and once the worker has
/// finished, the status is the result or the failure that the worker sent
/// last.
pub proof fn lemma_controller_follows_worker(
    state: AppState,
    mailbox: Receiver<TranscribeMessage>,
    events: Seq<WorkerEventView>,
)
    ensures
        ({
            let sent = crate::worker::run_messages(WorkerPhase::Created, events);
            let phase = crate::worker::run_phase(WorkerPhase::Created, events);
            let shown = state.started(mailbox).after_messages(sent);
            &&& shown.mailbox == (if phase == WorkerPhase::Finished {
                None
            } else {
                Some(mailbox)
            })
            &&& match phase {
                WorkerPhase::Created => shown.status == StatusView::LoadingModel,
                WorkerPhase::LoadingAccelerated => shown.status == StatusView::LoadingModel,
                WorkerPhase::LoadingReference => shown.status == StatusView::LoadingModel,
                WorkerPhase::Normalizing => shown.status == StatusView::Transcribing
                    && shown.using_gpu is Some,
                WorkerPhase::Inferring => shown.status == StatusView::Transcribing
                    && shown.using_gpu is Some,
                WorkerPhase::Finished => sent.len() >= 1 && match sent.last() {
                    MessageView::Done(text) => shown.status == StatusView::Done(text),
                    MessageView::Failed(reason) => shown.status == StatusView::Failed(reason),
                    _ => false,
                },
            }
        }),
{
    let sent = crate::worker::run_messages(WorkerPhase::Created, events);
    let phase = crate::worker::run_phase(WorkerPhase::Created, events);
    let begun = state.started(mailbox);
    crate::worker::lemma_run_follows_protocol(events);
    lemma_start_is_shown(begun);
    assert forall|accelerated: bool|
        ({
            let shown = begun.after_messages(#[trigger] opening(accelerated));
            shown.mailbox == Some(mailbox) && shown.status == StatusView::Transcribing
                && shown.using_gpu is Some
        }) by {
        lemma_opening_is_shown(begun, accelerated);
    }
    match phase {
        WorkerPhase::Finished => {
            let body = sent.drop_last();
            assert(sent =~= body + seq![sent.last()]);
            lemma_messages_in_two_parts(begun, body, seq![sent.last()]);
            let before = begun.after_messages(body);
            assert(before.mailbox == Some(mailbox) && !before.status.is_terminal());
            assert(seq![sent.last()].drop_last() =~= Seq::<MessageView>::empty());
            assert(before.after_messages(seq![sent.last()]) == before.after_message(sent.last()));
        },
        _ => {},
    }
}

/// A controller that has just started a job shows the loading of the
/// model, before and after the worker has said that it started.
pub proof fn lemma_start_is_shown(begun: AppState)
    requires
        begun.listening(),
        begun.status == StatusView::LoadingModel,
    ensures
        begun.after_messages(Seq::empty()) == begun,
        begun.after_messages(seq![MessageView::LoadingModel]) == begun,
{
    let one = seq![MessageView::LoadingModel];
    assert(one.drop_last() =~= Seq::<MessageView>::empty());
}

/// After the opening of a job the controller shows transcription, and
/// knows whether the accelerator is in use.
pub proof fn lemma_opening_is_shown(begun: AppState, accelerated: bool)
    requires
        begun.listening(),
        begun.status == StatusView::LoadingModel,
    ensures
        begun.after_messages(opening(accelerated)) == (AppState {
            status: StatusView::Transcribing,
            using_gpu: Some(accelerated),
            ..begun
        }),
{
    let three = opening(accelerated);
    let two = three.drop_last();
    let one = two.drop_last();
    lemma_start_is_shown(begun);
    assert(one =~= seq![MessageView::LoadingModel]);
    assert(begun.after_messages(one) == begun);
    assert(two.last() == MessageView::AcceleratorInUse(accelerated));
    assert(begun.after_messages(two) == begun.after_message(two.last()));
    assert(three.last() == MessageView::Transcribing);
    assert(begun.after_messages(three) == begun.after_messages(two).after_message(three.last()));
}

/// Taking in two runs of download messages, one after the other, is taking
/// in the two as one.
pub proof fn lemma_download_messages_in_two_parts(
    state: AppState,
    first: Seq<DownloadMessageView>,
    second: Seq<DownloadMessageView>,
)
    ensures
        state.after_download_messages(first + second) == state.after_download_messages(
            first,
        ).after_download_messages(second),
    decreases second.len(),
{
    if second.len() == 0 {
        assert(first + second =~= first);
    } else {
        lemma_download_messages_in_two_parts(state, first, second.drop_last());
        assert((first + second).drop_last() =~= first + second.drop_last());
        assert((first + second).last() == second.last());
    }
}

/// While only progress is reported, the controller keeps the mailbox and
/// shows the last report; nothing else changes.
pub proof fn lemma_progress_is_shown(state: AppState, reports: Seq<DownloadMessageView>)
    requires
        state.download_listening(),
        !state.download_status.is_terminal(),
        forall|i: int| 0 <= i < reports.len() ==> #[trigger] reports[i] is InProgress,
    ensures
        state.after_download_messages(reports) == (AppState {
            download_status: if reports.len() == 0 {
                state.download_status
            } else {
                DownloadStatusView::InProgress {
                    bytes_done: reports.last()->bytes_done,
                    bytes_total: reports.last()->bytes_total,
                }
            },
            ..state
        }),
    decreases reports.len(),
{
    if reports.len() > 0 {
        lemma_progress_is_shown(state, reports.drop_last());
        assert(reports.last() == reports[reports.len() - 1]);
    }
}

/// What a controller shows of a download follows the download's worker.
///
/// Take a controller that has just started a download, and let it take in
/// all that the worker has sent after any events whatever. Then the
/// mailbox is held exactly while the worker has not finished; until then
/// the status is the last progress report, or the start where there was
/// none; and once the worker has finished, the status is the path or the
/// failure that the worker sent last, and a finished file is the selected
/// model.
pub proof fn lemma_controller_follows_download(
    state: AppState,
    mailbox: Receiver<DownloadMessage>,
    destination: Seq<char>,
    events: Seq<DownloadEventView>,
)
    ensures
        ({
            let sent = crate::download::run_messages(initial_state(destination), events);
            let reached = crate::download::run_state(initial_state(destination), events);
            let shown = state.download_started(mailbox).after_download_messages(sent);
            &&& shown.download_mailbox == (if reached.phase == DownloadPhase::Finished {
                None
            } else {
                Some(mailbox)
            })
            &&& reached.phase != DownloadPhase::Finished ==> shown.model_path == state.model_path
                && shown.download_status == (if sent.len() == 0 {
                DownloadStatusView::InProgress { bytes_done: 0, bytes_total: 0 }
            } else {
                DownloadStatusView::InProgress {
                    bytes_done: reached.bytes_done,
                    bytes_total: reached.bytes_total,
                }
            })
            &&& reached.phase == DownloadPhase::Finished ==> sent.len() >= 1 && match sent.last() {
                DownloadMessageView::Done(path) => shown.download_status
                    == DownloadStatusView::Done(path) && shown.model_path == Some(path),
                DownloadMessageView::Failed(reason) => shown.download_status
                    == DownloadStatusView::Failed(reason) && shown.model_path == state.model_path,
                _ => false,
            }
        }),
{
    let sent = crate::download::run_messages(initial_state(destination), events);
    let reached = crate::download::run_state(initial_state(destination), events);
    let begun = state.download_started(mailbox);
    crate::download::lemma_run_follows_protocol(destination, events);
    crate::download::lemma_last_report_is_current(destination, events);
    if reached.phase == DownloadPhase::Finished {
        let body = sent.drop_last();
        assert(sent =~= body + seq![sent.last()]);
        lemma_download_messages_in_two_parts(begun, body, seq![sent.last()]);
        lemma_progress_is_shown(begun, body);
        let before = begun.after_download_messages(body);
        assert(seq![sent.last()].drop_last() =~= Seq::<DownloadMessageView>::empty());
        assert(before.after_download_messages(seq![sent.last()]) == before.after_download_message(
            sent.last(),
        ));
    } else if reached.phase == DownloadPhase::Streaming || reached.phase
        == DownloadPhase::ResolvingPath {
        lemma_progress_is_shown(begun, sent);
    } else {
        assert(sent =~= Seq::<DownloadMessageView>::empty());
    }
}

} // verus!
