//! What the workers tell the controller, and what the controller shows.
//!
//! A worker reports through a mailbox of messages. The controller keeps one
//! status for the transcription job and one for the download job, and each
//! message moves the matching status forward.

use vstd::prelude::*;
use vstd::string::*;

verus! {

/// A report of the transcription worker.
#[derive(Clone, Debug, PartialEq, Eq)]
pub enum TranscribeMessage {
    /// The worker has started and is loading the model.
    LoadingModel,
    /// The engine is ready; the flag tells whether it runs on the accelerator.
    AcceleratorInUse(bool),
    /// The worker is bringing the audio into form and will then run the engine.
    Transcribing,
    /// The job succeeded; the text may be empty.
    Done(String),
    /// The job failed, for the reason given.
    Failed(String),
}

/// [`TranscribeMessage`] with each text as a sequence of characters.
pub enum MessageView {
    LoadingModel,
    AcceleratorInUse(bool),
    Transcribing,
    Done(Seq<char>),
    Failed(Seq<char>),
}

impl MessageView {
    /// A terminal message is the last one of its job.
    pub open spec fn is_terminal(self) -> bool {
        self is Done || self is Failed
    }
}

impl View for TranscribeMessage {
    type V = MessageView;

    open spec fn view(&self) -> MessageView {
        match *self {
            TranscribeMessage::LoadingModel => MessageView::LoadingModel,
            TranscribeMessage::AcceleratorInUse(on) => MessageView::AcceleratorInUse(on),
            TranscribeMessage::Transcribing => MessageView::Transcribing,
            TranscribeMessage::Done(text) => MessageView::Done(text@),
            TranscribeMessage::Failed(reason) => MessageView::Failed(reason@),
        }
    }
}

impl DeepView for TranscribeMessage {
    type V = MessageView;

    open spec fn deep_view(&self) -> MessageView {
        self.view()
    }
}

impl TranscribeMessage {
    /// Whether this message ends its job.
    pub fn is_terminal(&self) -> (terminal: bool)
        ensures
            terminal == self@.is_terminal(),
    {
        match self {
            TranscribeMessage::Done(_) => true,
            TranscribeMessage::Failed(_) => true,
            _ => false,
        }
    }
}

/// The state of the transcription job, as the front end shows it.
#[derive(Clone, Debug, PartialEq, Eq)]
pub enum TranscribeStatus {
    /// No job was started yet, or the last result was cleared.
    Idle,
    LoadingModel,
    Transcribing,
    /// The last job succeeded with this text.
    Done(String),
    /// The last job failed for this reason.
    Failed(String),
}

/// [`TranscribeStatus`] with each text as a sequence of characters.
pub enum StatusView {
    Idle,
    LoadingModel,
    Transcribing,
    Done(Seq<char>),
    Failed(Seq<char>),
}

impl StatusView {
    /// How far a job has come: nothing, loading, transcribing, ended.
    pub open spec fn rank(self) -> nat {
        match self {
            StatusView::Idle => 0,
            StatusView::LoadingModel => 1,
            StatusView::Transcribing => 2,
            StatusView::Done(_) => 3,
            StatusView::Failed(_) => 3,
        }
    }

    /// A job with a terminal status has ended.
    pub open spec fn is_terminal(self) -> bool {
        self is Done || self is Failed
    }

    /// A job is running while its model is loaded or its audio transcribed.
    pub open spec fn is_active(self) -> bool {
        self is LoadingModel || self is Transcribing
    }

    /// The text of the last successful job, and nothing otherwise.
    pub open spec fn text(self) -> Seq<char> {
        match self {
            StatusView::Done(text) => text,
            _ => Seq::empty(),
        }
    }

    /// The status after `message` has been taken in.
    ///
    /// A terminal status stays: whatever follows the end of a job is
    /// ignored. Before that, no message moves the status backwards, and the
    /// accelerator notice leaves it alone.
    pub open spec fn after(self, message: MessageView) -> StatusView {
        if self.is_terminal() {
            self
        } else {
            match message {
                MessageView::LoadingModel => if self is Idle {
                    StatusView::LoadingModel
                } else {
                    self
                },
                MessageView::AcceleratorInUse(_) => self,
                MessageView::Transcribing => StatusView::Transcribing,
                MessageView::Done(text) => StatusView::Done(text),
                MessageView::Failed(reason) => StatusView::Failed(reason),
            }
        }
    }
}

impl View for TranscribeStatus {
    type V = StatusView;

    open spec fn view(&self) -> StatusView {
        match *self {
            TranscribeStatus::Idle => StatusView::Idle,
            TranscribeStatus::LoadingModel => StatusView::LoadingModel,
            TranscribeStatus::Transcribing => StatusView::Transcribing,
            TranscribeStatus::Done(text) => StatusView::Done(text@),
            TranscribeStatus::Failed(reason) => StatusView::Failed(reason@),
        }
    }
}

impl TranscribeStatus {
    /// Whether the job has ended.
    pub fn is_terminal(&self) -> (terminal: bool)
        ensures
            terminal == self@.is_terminal(),
        no_unwind
    {
        match self {
            TranscribeStatus::Done(_) => true,
            TranscribeStatus::Failed(_) => true,
            _ => false,
        }
    }

    /// Whether a job is running.
    pub fn is_active(&self) -> (active: bool)
        ensures
            active == self@.is_active(),
    {
        match self {
            TranscribeStatus::LoadingModel => true,
            TranscribeStatus::Transcribing => true,
            _ => false,
        }
    }

    /// Takes in one message of the transcription worker.
    pub fn apply(&mut self, message: TranscribeMessage)
        ensures
            final(self)@ == old(self)@.after(message@),
        no_unwind
    {
        if self.is_terminal() {
            return ;
        }
        match message {
            TranscribeMessage::LoadingModel => {
                if let TranscribeStatus::Idle = self {
                    *self = TranscribeStatus::LoadingModel;
                }
            },
            TranscribeMessage::AcceleratorInUse(_) => {},
            TranscribeMessage::Transcribing => {
                *self = TranscribeStatus::Transcribing;
            },
            TranscribeMessage::Done(text) => {
                *self = TranscribeStatus::Done(text);
            },
            TranscribeMessage::Failed(reason) => {
                *self = TranscribeStatus::Failed(reason);
            },
        }
    }
}

/// No message of the worker moves the status of a job backwards, and a
/// terminal status is not left.
pub proof fn lemma_status_moves_forward(status: StatusView, message: MessageView)
    ensures
        status.rank() <= status.after(message).rank(),
        status.is_terminal() ==> status.after(message) == status,
{
}

/// A report of the download worker.
#[derive(Clone, Debug, PartialEq, Eq)]
pub enum DownloadMessage {
    /// So many bytes have been written. A total of zero means that the
    /// server did not state a length.
    InProgress { bytes_done: u64, bytes_total: u64 },
    /// The file is complete and stands at this path.
    Done(String),
    /// The download failed, for the reason given.
    Failed(String),
}

/// [`DownloadMessage`] with numbers unbounded and texts as sequences.
pub enum DownloadMessageView {
    InProgress { bytes_done: nat, bytes_total: nat },
    Done(Seq<char>),
    Failed(Seq<char>),
}

impl DownloadMessageView {
    /// A terminal message is the last one of its job.
    pub open spec fn is_terminal(self) -> bool {
        self is Done || self is Failed
    }
}

impl View for DownloadMessage {
    type V = DownloadMessageView;

    open spec fn view(&self) -> DownloadMessageView {
        match *self {
            DownloadMessage::InProgress { bytes_done, bytes_total } => {
                DownloadMessageView::InProgress {
                    bytes_done: bytes_done as nat,
                    bytes_total: bytes_total as nat,
                }
            },
            DownloadMessage::Done(path) => DownloadMessageView::Done(path@),
            DownloadMessage::Failed(reason) => DownloadMessageView::Failed(reason@),
        }
    }
}

impl DeepView for DownloadMessage {
    type V = DownloadMessageView;

    open spec fn deep_view(&self) -> DownloadMessageView {
        self.view()
    }
}

impl DownloadMessage {
    /// Whether this message ends its job.
    pub fn is_terminal(&self) -> (terminal: bool)
        ensures
            terminal == self@.is_terminal(),
    {
        match self {
            DownloadMessage::InProgress { .. } => false,
            _ => true,
        }
    }
}

/// The state of the download job, as the front end shows it.
#[derive(Clone, Debug, PartialEq, Eq)]
pub enum DownloadStatus {
    Idle,
    /// So many bytes of the total have been written; a total of zero means
    /// that the length is not known.
    InProgress { bytes_done: u64, bytes_total: u64 },
    /// The last download succeeded and stands at this path.
    Done(String),
    /// The last download failed for this reason.
    Failed(String),
}

/// [`DownloadStatus`] with numbers unbounded and texts as sequences.
pub enum DownloadStatusView {
    Idle,
    InProgress { bytes_done: nat, bytes_total: nat },
    Done(Seq<char>),
    Failed(Seq<char>),
}

impl DownloadStatusView {
    /// A job with a terminal status has ended.
    pub open spec fn is_terminal(self) -> bool {
        self is Done || self is Failed
    }

    /// The status after `message` has been taken in: the last progress
    /// report wins, and a terminal status stays.
    pub open spec fn after(self, message: DownloadMessageView) -> DownloadStatusView {
        if self.is_terminal() {
            self
        } else {
            match message {
                DownloadMessageView::InProgress { bytes_done, bytes_total } => {
                    DownloadStatusView::InProgress { bytes_done, bytes_total }
                },
                DownloadMessageView::Done(path) => DownloadStatusView::Done(path),
                DownloadMessageView::Failed(reason) => DownloadStatusView::Failed(reason),
            }
        }
    }

    /// The share of the download that is done, in whole percent, rounded
    /// down. There is none while nothing is being downloaded, and none
    /// while the total is not known.
    pub open spec fn percent(self) -> Option<nat> {
        match self {
            DownloadStatusView::InProgress { bytes_done, bytes_total } => {
                if bytes_total == 0 {
                    None
                } else {
                    Some(bytes_done * 100 / bytes_total)
                }
            },
            _ => None,
        }
    }
}

impl View for DownloadStatus {
    type V = DownloadStatusView;

    open spec fn view(&self) -> DownloadStatusView {
        match *self {
            DownloadStatus::Idle => DownloadStatusView::Idle,
            DownloadStatus::InProgress { bytes_done, bytes_total } => {
                DownloadStatusView::InProgress {
                    bytes_done: bytes_done as nat,
                    bytes_total: bytes_total as nat,
                }
            },
            DownloadStatus::Done(path) => DownloadStatusView::Done(path@),
            DownloadStatus::Failed(reason) => DownloadStatusView::Failed(reason@),
        }
    }
}

impl DownloadStatus {
    /// Whether the job has ended.
    pub fn is_terminal(&self) -> (terminal: bool)
        ensures
            terminal == self@.is_terminal(),
        no_unwind
    {
        match self {
            DownloadStatus::Done(_) => true,
            DownloadStatus::Failed(_) => true,
            _ => false,
        }
    }

    /// Whether a download is running.
    pub fn is_in_progress(&self) -> (running: bool)
        ensures
            running == (self@ is InProgress),
    {
        match self {
            DownloadStatus::InProgress { .. } => true,
            _ => false,
        }
    }

    /// Takes in one message of the download worker.
    pub fn apply(&mut self, message: DownloadMessage)
        ensures
            final(self)@ == old(self)@.after(message@),
        no_unwind
    {
        if self.is_terminal() {
            return ;
        }
        match message {
            DownloadMessage::InProgress { bytes_done, bytes_total } => {
                *self = DownloadStatus::InProgress { bytes_done, bytes_total };
            },
            DownloadMessage::Done(path) => {
                *self = DownloadStatus::Done(path);
            },
            DownloadMessage::Failed(reason) => {
                *self = DownloadStatus::Failed(reason);
            },
        }
    }

    /// The share of the download that is done, in whole percent, rounded
    /// down. A download of unknown length has no share: the result is
    /// `None`, and nothing is divided.
    pub fn percent(&self) -> (share: Option<u128>)
        ensures
            match share {
                Some(p) => self@.percent() == Some(p as nat),
                None => self@.percent() is None,
            },
    {
        match self {
            DownloadStatus::InProgress { bytes_done, bytes_total } => {
                if *bytes_total == 0 {
                    None
                } else {
                    let done: u128 = *bytes_done as u128;
                    let total: u128 = *bytes_total as u128;
                    Some(done * 100 / total)
                }
            },
            _ => None,
        }
    }
}

} // verus!
