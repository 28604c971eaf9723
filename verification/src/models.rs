//! The speech models that can be fetched, and where each one comes from.

use vstd::prelude::*;
use vstd::string::*;

verus! {

/// The address under which every model file is published, as a sequence of
/// characters.
pub open spec fn model_base_url() -> Seq<char> {
    "https://huggingface.co/ggerganov/whisper.cpp/resolve/main/"@
}

/// The local directory, with its separator, that downloads are written to.
pub open spec fn model_directory() -> Seq<char> {
    "models/"@
}

/// The address from which the model file `filename` is downloaded.
pub fn get_model_url(filename: &str) -> (url: String)
    ensures
        url@ == model_base_url() + filename@,
{
    let mut url = String::from_str("https://huggingface.co/ggerganov/whisper.cpp/resolve/main/");
    url.append(filename);
    url
}

/// The path, relative to the working directory, that the model file
/// `filename` is stored under.
pub fn model_destination(filename: &str) -> (path: String)
    ensures
        path@ == model_directory() + filename@,
{
    let mut path = String::from_str("models/");
    path.append(filename);
    path
}

/// A speech model that can be fetched.
#[derive(Clone, Copy, Debug, PartialEq, Eq, Structural)]
pub enum WhisperModel {
    Tiny,
    Base,
    Small,
    Medium,
    Large,
}

impl WhisperModel {
    /// The name under which the model is offered.
    pub open spec fn name_spec(self) -> Seq<char> {
        match self {
            WhisperModel::Tiny => "tiny"@,
            WhisperModel::Base => "base"@,
            WhisperModel::Small => "small"@,
            WhisperModel::Medium => "medium"@,
            WhisperModel::Large => "large"@,
        }
    }

    /// The name of the model's file.
    pub open spec fn filename_spec(self) -> Seq<char> {
        match self {
            WhisperModel::Tiny => "ggml-tiny.bin"@,
            WhisperModel::Base => "ggml-base.bin"@,
            WhisperModel::Small => "ggml-small.bin"@,
            WhisperModel::Medium => "ggml-medium.bin"@,
            WhisperModel::Large => "ggml-large-v3-turbo.bin"@,
        }
    }

    /// The place of the model in the list of models, counted from zero.
    pub open spec fn index_spec(self) -> nat {
        match self {
            WhisperModel::Tiny => 0,
            WhisperModel::Base => 1,
            WhisperModel::Small => 2,
            WhisperModel::Medium => 3,
            WhisperModel::Large => 4,
        }
    }

    /// The name under which the model is offered.
    pub fn name(self) -> (name: &'static str)
        ensures
            name@ == self.name_spec(),
    {
        match self {
            WhisperModel::Tiny => "tiny",
            WhisperModel::Base => "base",
            WhisperModel::Small => "small",
            WhisperModel::Medium => "medium",
            WhisperModel::Large => "large",
        }
    }

    /// The name of the model's file.
    pub fn filename(self) -> (filename: &'static str)
        ensures
            filename@ == self.filename_spec(),
    {
        match self {
            WhisperModel::Tiny => "ggml-tiny.bin",
            WhisperModel::Base => "ggml-base.bin",
            WhisperModel::Small => "ggml-small.bin",
            WhisperModel::Medium => "ggml-medium.bin",
            WhisperModel::Large => "ggml-large-v3-turbo.bin",
        }
    }

    /// The place of the model in the list of models, counted from zero.
    pub fn index(self) -> (index: usize)
        ensures
            index == self.index_spec(),
    {
        match self {
            WhisperModel::Tiny => 0,
            WhisperModel::Base => 1,
            WhisperModel::Small => 2,
            WhisperModel::Medium => 3,
            WhisperModel::Large => 4,
        }
    }

    /// The model at place `index` of the list, if the list is that long.
    pub fn from_index(index: usize) -> (model: Option<WhisperModel>)
        ensures
            match model {
                Some(m) => m.index_spec() == index,
                None => index >= 5,
            },
    {
        match index {
            0 => Some(WhisperModel::Tiny),
            1 => Some(WhisperModel::Base),
            2 => Some(WhisperModel::Small),
            3 => Some(WhisperModel::Medium),
            4 => Some(WhisperModel::Large),
            _ => None,
        }
    }

    /// Every model, in the order of the list.
    pub fn all() -> (list: Vec<WhisperModel>)
        ensures
            list@.len() == 5,
            forall|i: int| 0 <= i < 5 ==> (#[trigger] list@[i]).index_spec() == i,
    {
        let mut list: Vec<WhisperModel> = Vec::new();
        list.push(WhisperModel::Tiny);
        list.push(WhisperModel::Base);
        list.push(WhisperModel::Small);
        list.push(WhisperModel::Medium);
        list.push(WhisperModel::Large);
        list
    }

    /// The address from which the model is downloaded.
    pub fn url(self) -> (url: String)
        ensures
            url@ == model_base_url() + self.filename_spec(),
    {
        get_model_url(self.filename())
    }

    /// The path, relative to the working directory, that the model is
    /// stored under.
    pub fn destination(self) -> (path: String)
        ensures
            path@ == model_directory() + self.filename_spec(),
    {
        model_destination(self.filename())
    }
}

/// What a file that was handed to the tool is taken for, going by the
/// extension of its name.
#[derive(Clone, Copy, Debug, PartialEq, Eq, Structural)]
pub enum FileKind {
    /// A model file.
    Model,
    /// An audio file.
    Audio,
    /// Neither.
    Unsupported,
}

/// The extensions that audio files carry, in lower case.
pub open spec fn audio_extension_list() -> Seq<Seq<char>> {
    seq!["wav"@, "mp3"@, "flac"@, "ogg"@, "m4a"@, "aac"@, "wma"@, "opus"@, "webm"@]
}

/// Whether `extension`, in lower case, is one that audio files carry.
pub open spec fn is_audio_extension(extension: Seq<char>) -> bool {
    audio_extension_list().contains(extension)
}

/// The extensions that audio files carry, in lower case.
pub fn audio_extensions() -> (list: Vec<&'static str>)
    ensures
        list.deep_view() == audio_extension_list(),
{
    let mut list: Vec<&'static str> = Vec::new();
    list.push("wav");
    list.push("mp3");
    list.push("flac");
    list.push("ogg");
    list.push("m4a");
    list.push("aac");
    list.push("wma");
    list.push("opus");
    list.push("webm");
    assert(list.deep_view() =~= audio_extension_list());
    list
}

/// What a file is taken for whose extension, in lower case, is
/// `extension`.
pub open spec fn file_kind(extension: Seq<char>) -> FileKind {
    if extension == "bin"@ {
        FileKind::Model
    } else if is_audio_extension(extension) {
        FileKind::Audio
    } else {
        FileKind::Unsupported
    }
}

/// Whether two texts are the same.
fn same_text(a: &str, b: &str) -> (same: bool)
    ensures
        same == (a@ == b@),
{
    String::from_str(a) == String::from_str(b)
}

/// Whether `extension` is an entry of `list`.
fn is_listed(list: &Vec<&'static str>, extension: &str) -> (listed: bool)
    ensures
        listed == list.deep_view().contains(extension@),
{
    let mut index: usize = 0;
    while index < list.len()
        invariant
            index <= list@.len(),
            forall|i: int| 0 <= i < index ==> list.deep_view()[i] != extension@,
        decreases list@.len() - index,
    {
        if same_text(list[index], extension) {
            assert(list.deep_view()[index as int] == extension@);
            return true;
        }
        index += 1;
    }
    false
}

/// What a file is taken for whose extension, already in lower case, is
/// `extension`.
pub fn classify_lowercase(extension: &str) -> (kind: FileKind)
    ensures
        kind == file_kind(extension@),
{
    if same_text(extension, "bin") {
        FileKind::Model
    } else if is_listed(&audio_extensions(), extension) {
        FileKind::Audio
    } else {
        FileKind::Unsupported
    }
}

/// The lower-case form of a text, as `str::to_lowercase` of the standard
/// library gives it.
pub uninterp spec fn lowercase(text: Seq<char>) -> Seq<char>;

/// Calls `str::to_lowercase`. The result is given the name
/// [`lowercase`]; nothing else is claimed of it.
#[verifier::external_body]
fn to_lowercase(text: &str) -> (lower: String)
    ensures
        lower@ == lowercase(text@),
{
    text.to_lowercase()
}

/// What a file is taken for whose name has the extension `extension`:
/// letter case plays no part.
pub fn classify_extension(extension: &str) -> (kind: FileKind)
    ensures
        kind == file_kind(lowercase(extension@)),
{
    let lower = to_lowercase(extension);
    classify_lowercase(lower.as_str())
}

} // verus!
