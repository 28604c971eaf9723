//! Turning decoded audio into the buffer that the recognition engine takes:
//! one channel, at the engine's sample rate.
//!
//! The container and codec work is done by the caller. This module decides
//! which track is decoded, what happens after each packet, and how the
//! decoded samples are reduced to one channel. The samples themselves are
//! never inspected here, so every function is generic in the sample type.

use vstd::prelude::*;
use vstd::string::*;

verus! {

/// The sample rate, in hertz, that the recognition engine takes.
pub const TARGET_SAMPLE_RATE: u32 = 16000;

/// What a container reports about one of its tracks.
#[derive(Clone, Copy, Debug, PartialEq, Eq)]
pub struct TrackInfo {
    /// The identifier that packets of this track carry.
    pub id: u32,
    /// Whether the track names a codec at all.
    pub has_codec: bool,
    /// The sample rate in hertz, where the container states one.
    pub sample_rate: Option<u32>,
    /// The number of interleaved channels, where the container states one.
    pub channel_count: Option<u32>,
}

/// The track that is decoded, with the two properties that the pipeline
/// needs. A track obtained from [`resolve_track`] has at least one channel.
#[derive(Clone, Copy, Debug, PartialEq, Eq, Structural)]
pub struct Track {
    pub id: u32,
    pub sample_rate: u32,
    pub channel_count: u32,
}

impl Track {
    /// A track has at least one channel.
    pub open spec fn wf(self) -> bool {
        self.channel_count >= 1
    }
}

/// The property of a track that its container left out.
#[derive(Clone, Copy, Debug, PartialEq, Eq, Structural)]
pub enum MissingProperty {
    SampleRate,
    ChannelCount,
}

/// The step of resampling that failed.
#[derive(Clone, Copy, Debug, PartialEq, Eq, Structural)]
pub enum ResampleError {
    /// The resampler could not be built for the two rates.
    Construction,
    /// The resampler was built and failed on the buffer.
    Processing,
}

/// Why no buffer could be produced from a file.
#[derive(Clone, Debug, PartialEq, Eq)]
pub enum AudioError {
    /// The file could not be opened.
    OpenFailed,
    /// No known container format matches the file.
    UnsupportedFormat,
    /// No track of the container names a codec.
    NoAudioTrack,
    /// The selected track does not state its sample rate or channel count.
    UnknownFormat(MissingProperty),
    /// No decoder exists for the selected track's codec.
    DecoderUnavailable,
    /// Reading the next packet failed; the text is the reader's.
    ReadFailed(String),
    /// Decoding a packet failed for good; the text is the decoder's.
    DecodeFailed(String),
    /// The stream ended before a single sample was decoded.
    EmptyAudio,
    /// The mono buffer could not be brought to the target rate.
    Resample(ResampleError),
}

/// [`AudioError`] with each text as a sequence of characters.
pub enum AudioErrorView {
    OpenFailed,
    UnsupportedFormat,
    NoAudioTrack,
    UnknownFormat(MissingProperty),
    DecoderUnavailable,
    ReadFailed(Seq<char>),
    DecodeFailed(Seq<char>),
    EmptyAudio,
    Resample(ResampleError),
}

impl View for AudioError {
    type V = AudioErrorView;

    open spec fn view(&self) -> AudioErrorView {
        match *self {
            AudioError::OpenFailed => AudioErrorView::OpenFailed,
            AudioError::UnsupportedFormat => AudioErrorView::UnsupportedFormat,
            AudioError::NoAudioTrack => AudioErrorView::NoAudioTrack,
            AudioError::UnknownFormat(p) => AudioErrorView::UnknownFormat(p),
            AudioError::DecoderUnavailable => AudioErrorView::DecoderUnavailable,
            AudioError::ReadFailed(text) => AudioErrorView::ReadFailed(text@),
            AudioError::DecodeFailed(text) => AudioErrorView::DecodeFailed(text@),
            AudioError::EmptyAudio => AudioErrorView::EmptyAudio,
            AudioError::Resample(e) => AudioErrorView::Resample(e),
        }
    }
}

impl AudioErrorView {
    /// The sentence that a user is shown for this error.
    pub open spec fn message(self) -> Seq<char> {
        match self {
            AudioErrorView::OpenFailed => "Failed to open audio file"@,
            AudioErrorView::UnsupportedFormat => "Unsupported audio format"@,
            AudioErrorView::NoAudioTrack => "No audio track found"@,
            AudioErrorView::UnknownFormat(MissingProperty::SampleRate) => "Unknown sample rate"@,
            AudioErrorView::UnknownFormat(MissingProperty::ChannelCount) => "Unknown channel count"@,
            AudioErrorView::DecoderUnavailable => "Failed to create decoder"@,
            AudioErrorView::ReadFailed(text) => "Error reading packet: "@ + text,
            AudioErrorView::DecodeFailed(text) => "Decode error: "@ + text,
            AudioErrorView::EmptyAudio => "No audio samples decoded"@,
            AudioErrorView::Resample(ResampleError::Construction) => "Failed to create resampler"@,
            AudioErrorView::Resample(ResampleError::Processing) => "Failed to resample audio"@,
        }
    }
}

impl AudioError {
    /// The sentence that a user is shown for this error.
    pub fn message(&self) -> (text: String)
        ensures
            text@ == self@.message(),
    {
        match self {
            AudioError::OpenFailed => String::from_str("Failed to open audio file"),
            AudioError::UnsupportedFormat => String::from_str("Unsupported audio format"),
            AudioError::NoAudioTrack => String::from_str("No audio track found"),
            AudioError::UnknownFormat(MissingProperty::SampleRate) => String::from_str(
                "Unknown sample rate",
            ),
            AudioError::UnknownFormat(MissingProperty::ChannelCount) => String::from_str(
                "Unknown channel count",
            ),
            AudioError::DecoderUnavailable => String::from_str("Failed to create decoder"),
            AudioError::ReadFailed(detail) => {
                let mut text = String::from_str("Error reading packet: ");
                text.append(detail.as_str());
                text
            },
            AudioError::DecodeFailed(detail) => {
                let mut text = String::from_str("Decode error: ");
                text.append(detail.as_str());
                text
            },
            AudioError::EmptyAudio => String::from_str("No audio samples decoded"),
            AudioError::Resample(ResampleError::Construction) => String::from_str(
                "Failed to create resampler",
            ),
            AudioError::Resample(ResampleError::Processing) => String::from_str(
                "Failed to resample audio",
            ),
        }
    }
}

/// Whether `index` is the first track of `tracks` that names a codec.
pub open spec fn is_first_decodable(tracks: Seq<TrackInfo>, index: int) -> bool {
    &&& 0 <= index < tracks.len()
    &&& tracks[index].has_codec
    &&& forall|j: int| 0 <= j < index ==> !(#[trigger] tracks[j]).has_codec
}

/// Whether no track of `tracks` names a codec.
pub open spec fn none_decodable(tracks: Seq<TrackInfo>) -> bool {
    forall|j: int| 0 <= j < tracks.len() ==> !(#[trigger] tracks[j]).has_codec
}

/// Picks the track to decode: the first one, in container order, that names
/// a codec. Fails with `NoAudioTrack` exactly when there is none.
pub fn select_track(tracks: &Vec<TrackInfo>) -> (selected: Result<usize, AudioError>)
    ensures
        match selected {
            Ok(index) => is_first_decodable(tracks@, index as int),
            Err(e) => e@ == AudioErrorView::NoAudioTrack && none_decodable(tracks@),
        },
{
    let mut index: usize = 0;
    while index < tracks.len()
        invariant
            index <= tracks.len(),
            forall|j: int| 0 <= j < index ==> !(#[trigger] tracks@[j]).has_codec,
        decreases tracks.len() - index,
    {
        if tracks[index].has_codec {
            return Ok(index);
        }
        index += 1;
    }
    Err(AudioError::NoAudioTrack)
}

/// What [`resolve_track`] returns for `info`.
pub open spec fn resolved(info: TrackInfo) -> Result<Track, AudioErrorView> {
    match (info.sample_rate, info.channel_count) {
        (None, _) => Err(AudioErrorView::UnknownFormat(MissingProperty::SampleRate)),
        (Some(_), None) => Err(AudioErrorView::UnknownFormat(MissingProperty::ChannelCount)),
        (Some(rate), Some(channels)) => if channels == 0 {
            Err(AudioErrorView::UnknownFormat(MissingProperty::ChannelCount))
        } else {
            Ok(Track { id: info.id, sample_rate: rate, channel_count: channels })
        },
    }
}

/// Reads the sample rate and the channel count of the selected track. A
/// track that states neither, or no channel at all, is refused: the sample
/// rate is looked at first.
pub fn resolve_track(info: &TrackInfo) -> (track: Result<Track, AudioError>)
    ensures
        match track {
            Ok(t) => resolved(*info) == Ok::<Track, AudioErrorView>(t) && t.wf(),
            Err(e) => resolved(*info) == Err::<Track, AudioErrorView>(e@),
        },
{
    let sample_rate = match info.sample_rate {
        Some(rate) => rate,
        None => {
            return Err(AudioError::UnknownFormat(MissingProperty::SampleRate));
        },
    };
    match info.channel_count {
        Some(channels) if channels >= 1 => Ok(
            Track { id: info.id, sample_rate, channel_count: channels },
        ),
        _ => Err(AudioError::UnknownFormat(MissingProperty::ChannelCount)),
    }
}

/// How reading or decoding a packet failed, as far as the pipeline tells
/// failures apart.
#[derive(Clone, Copy, Debug, PartialEq, Eq, Structural)]
pub enum StreamErrorKind {
    /// The source has no more data.
    EndOfStream,
    /// The data of one packet is damaged.
    Corrupt,
    /// Anything else.
    Other,
}

/// A failure of the reader or the decoder, with its own description.
#[derive(Clone, Debug, PartialEq, Eq)]
pub struct StreamError {
    pub kind: StreamErrorKind,
    pub text: String,
}

/// What the decode loop does after an attempt to read the next packet.
#[derive(Clone, Debug, PartialEq, Eq)]
pub enum ReadDecision {
    /// The packet belongs to the selected track: decode it.
    Decode,
    /// The packet belongs to another track: read the next one.
    Skip,
    /// The stream has ended: leave the loop with what was decoded.
    Finish,
    /// The read failed: give up with this error.
    Abort(AudioError),
}

/// [`ReadDecision`] with the error by its view.
pub enum ReadDecisionView {
    Decode,
    Skip,
    Finish,
    Abort(AudioErrorView),
}

impl View for ReadDecision {
    type V = ReadDecisionView;

    open spec fn view(&self) -> ReadDecisionView {
        match *self {
            ReadDecision::Decode => ReadDecisionView::Decode,
            ReadDecision::Skip => ReadDecisionView::Skip,
            ReadDecision::Finish => ReadDecisionView::Finish,
            ReadDecision::Abort(e) => ReadDecisionView::Abort(e@),
        }
    }
}

/// The decision that follows a read: `Ok` holds the track identifier of the
/// packet that was read.
pub open spec fn read_decision(track: Track, read: Result<u32, StreamError>) -> ReadDecisionView {
    match read {
        Ok(id) => if id == track.id {
            ReadDecisionView::Decode
        } else {
            ReadDecisionView::Skip
        },
        Err(e) => if e.kind == StreamErrorKind::EndOfStream {
            ReadDecisionView::Finish
        } else {
            ReadDecisionView::Abort(AudioErrorView::ReadFailed(e.text@))
        },
    }
}

/// Decides what follows an attempt to read the next packet. Only packets of
/// the selected track are decoded; the end of the stream ends the loop in
/// the ordinary way; every other failure of the reader is final.
pub fn after_read(track: &Track, read: Result<u32, StreamError>) -> (decision: ReadDecision)
    ensures
        decision@ == read_decision(*track, read),
{
    match read {
        Ok(id) => if id == track.id {
            ReadDecision::Decode
        } else {
            ReadDecision::Skip
        },
        Err(e) => match e.kind {
            StreamErrorKind::EndOfStream => ReadDecision::Finish,
            _ => ReadDecision::Abort(AudioError::ReadFailed(e.text)),
        },
    }
}

/// Takes in the outcome of decoding one packet. Decoded samples are added
/// to the end of `buffer` in the order given. A damaged packet is passed
/// over and leaves `buffer` as it was. Any other failure is final and
/// leaves `buffer` as it was too.
pub fn after_decode<S>(buffer: &mut Vec<S>, outcome: Result<Vec<S>, StreamError>) -> (result:
    Result<(), AudioError>)
    ensures
        match outcome {
            Ok(samples) => result is Ok && final(buffer)@ == old(buffer)@ + samples@,
            Err(e) => final(buffer)@ == old(buffer)@ && if e.kind == StreamErrorKind::Corrupt {
                result is Ok
            } else {
                result matches Err(failure) && failure@ == AudioErrorView::DecodeFailed(e.text@)
            },
        },
{
    match outcome {
        Ok(samples) => {
            let mut samples = samples;
            buffer.append(&mut samples);
            Ok(())
        },
        Err(e) => match e.kind {
            StreamErrorKind::Corrupt => Ok(()),
            _ => Err(AudioError::DecodeFailed(e.text)),
        },
    }
}

/// The `index`-th group of `channels` neighbouring samples of an interleaved
/// buffer: one sample of each channel, all of the same instant.
pub open spec fn frame<S>(samples: Seq<S>, channels: nat, index: int) -> Seq<S> {
    samples.subrange(index * channels, (index + 1) * channels)
}

/// Whether `value` is a result that `mean` may give for the samples `group`.
pub open spec fn is_mean_of<S, M: Fn(&[S]) -> S>(mean: M, group: Seq<S>, value: S) -> bool {
    exists|chunk: &[S]| #[trigger] call_ensures(mean, (chunk,), value) && chunk@ == group
}

/// Whether `mono` is the reduction of the interleaved buffer `samples` to
/// one channel: it has one sample for each whole frame, in order, and that
/// sample is what `mean` gives for the frame. Samples after the last whole
/// frame have no part in it.
pub open spec fn is_downmix<S, M: Fn(&[S]) -> S>(
    mean: M,
    samples: Seq<S>,
    channels: nat,
    mono: Seq<S>,
) -> bool {
    &&& mono.len() == samples.len() / channels
    &&& forall|i: int|
        0 <= i < mono.len() ==> is_mean_of(mean, frame(samples, channels, i), #[trigger] mono[i])
}

/// Frame `index` lies inside a buffer of `len` samples when `index` is
/// below the number of whole frames.
pub proof fn lemma_frame_in_bounds(len: nat, channels: nat, index: int)
    requires
        channels >= 1,
        0 <= index < len / channels,
    ensures
        0 <= index * channels,
        (index + 1) * channels == index * channels + channels,
        (index + 1) * channels <= len,
{
    assert(0 <= index * channels) by (nonlinear_arith)
        requires
            channels >= 1,
            0 <= index,
    ;
    assert((index + 1) * channels == index * channels + channels) by (nonlinear_arith);
    assert((index + 1) * channels <= len) by (nonlinear_arith)
        requires
            channels >= 1,
            index + 1 <= len / channels,
    ;
}

/// Reduces an interleaved buffer of `channels` channels to one channel.
/// Each whole frame gives one output sample, computed by `mean` from the
/// frame's samples in channel order; a trailing partial frame is dropped.
pub fn downmix<S, M: Fn(&[S]) -> S>(samples: &Vec<S>, channels: u32, mean: M) -> (mono: Vec<S>)
    requires
        channels >= 1,
        forall|chunk: &[S]| chunk@.len() == channels ==> call_requires(mean, (chunk,)),
    ensures
        is_downmix(mean, samples@, channels as nat, mono@),
        mono@.len() == samples@.len() / (channels as nat),
{
    let width: usize = channels as usize;
    let frames: usize = samples.len() / width;
    let mut mono: Vec<S> = Vec::with_capacity(frames);
    let mut index: usize = 0;
    while index < frames
        invariant
            width == channels,
            channels >= 1,
            samples@.len() <= usize::MAX,
            frames == samples@.len() / (channels as nat),
            index <= frames,
            mono@.len() == index,
            forall|chunk: &[S]| chunk@.len() == channels ==> call_requires(mean, (chunk,)),
            forall|i: int|
                0 <= i < index ==> is_mean_of(
                    mean,
                    frame(samples@, channels as nat, i),
                    #[trigger] mono@[i],
                ),
        decreases frames - index,
    {
        proof {
            lemma_frame_in_bounds(samples@.len(), channels as nat, index as int);
        }
        let start: usize = index * width;
        let end: usize = start + width;
        let chunk = vstd::slice::slice_subrange(samples.as_slice(), start, end);
        let value = mean(chunk);
        assert(is_mean_of(mean, frame(samples@, channels as nat, index as int), value)) by {
            assert(call_ensures(mean, (chunk,), value));
            assert(chunk@ == frame(samples@, channels as nat, index as int));
        }
        mono.push(value);
        index += 1;
    }
    mono
}

/// Whether `mono` is the one-channel form of what was decoded from `track`:
/// the decoded buffer itself where the track has one channel, and its
/// reduction by `mean` where it has more.
pub open spec fn is_mono_of<S, M: Fn(&[S]) -> S>(
    mean: M,
    samples: Seq<S>,
    track: Track,
    mono: Seq<S>,
) -> bool {
    if track.channel_count > 1 {
        is_downmix(mean, samples, track.channel_count as nat, mono)
    } else {
        mono == samples
    }
}

/// Whether `result` is what `resample` may give for the buffer `mono` at
/// `rate`: its buffer where it succeeds, its failure as an [`AudioError`]
/// where it does not.
pub open spec fn is_resampled<S, R: FnOnce(Vec<S>, u32, u32) -> Result<Vec<S>, ResampleError>>(
    resample: R,
    mono: Vec<S>,
    rate: u32,
    result: Result<Vec<S>, AudioError>,
) -> bool {
    match result {
        Ok(out) => call_ensures(resample, (mono, rate, TARGET_SAMPLE_RATE), Ok(out)),
        Err(e) => e matches AudioError::Resample(cause) && call_ensures(
            resample,
            (mono, rate, TARGET_SAMPLE_RATE),
            Err(cause),
        ),
    }
}

/// Brings everything decoded from `track` into the form that the engine
/// takes.
///
/// Nothing decoded is an error. Otherwise the buffer is first reduced to one
/// channel. A track that is already at the target rate is then done, and
/// `resample` is not called. Any other track is handed to `resample` with its
/// own rate and the target rate, and what `resample` returns is the result.
pub fn normalize<S, M, R>(samples: Vec<S>, track: &Track, mean: M, resample: R) -> (result: Result<
    Vec<S>,
    AudioError,
>) where M: Fn(&[S]) -> S, R: FnOnce(Vec<S>, u32, u32) -> Result<Vec<S>, ResampleError>
    requires
        track.channel_count > 1 ==> forall|chunk: &[S]|
            chunk@.len() == track.channel_count ==> call_requires(mean, (chunk,)),
        track.sample_rate != TARGET_SAMPLE_RATE ==> forall|mono: Vec<S>|
            is_mono_of(mean, samples@, *track, mono@) ==> call_requires(
                resample,
                (mono, track.sample_rate, TARGET_SAMPLE_RATE),
            ),
    ensures
        samples@.len() == 0 ==> (result matches Err(e) && e@ == AudioErrorView::EmptyAudio),
        samples@.len() > 0 && track.sample_rate == TARGET_SAMPLE_RATE ==> (result matches Ok(out)
            && is_mono_of(mean, samples@, *track, out@)),
        samples@.len() > 0 && track.sample_rate == TARGET_SAMPLE_RATE && track.channel_count <= 1
            ==> (result matches Ok(out) && out@ == samples@),
        samples@.len() > 0 && track.sample_rate != TARGET_SAMPLE_RATE ==> exists|mono: Vec<S>|
            is_mono_of(mean, samples@, *track, mono@) && #[trigger] is_resampled(
                resample,
                mono,
                track.sample_rate,
                result,
            ),
{
    if samples.len() == 0 {
        return Err(AudioError::EmptyAudio);
    }
    let ghost decoded = samples@;
    let mono = if track.channel_count > 1 {
        downmix(&samples, track.channel_count, mean)
    } else {
        samples
    };
    if !needs_resampling(track.sample_rate) {
        return Ok(mono);
    }
    let ghost witness = mono;
    assert(is_mono_of(mean, decoded, *track, witness@));
    match resample(mono, track.sample_rate, TARGET_SAMPLE_RATE) {
        Ok(out) => {
            let result = Ok(out);
            assert(is_resampled(resample, witness, track.sample_rate, result));
            result
        },
        Err(cause) => {
            let result = Err(AudioError::Resample(cause));
            assert(is_resampled(resample, witness, track.sample_rate, result));
            result
        },
    }
}

/// How the resampler is set up for one buffer: a band-limited filter of
/// fixed quality, run once over the whole buffer.
#[derive(Clone, Copy, Debug, PartialEq, Eq, Structural)]
pub struct ResamplerSettings {
    /// The size of the filter, in taps.
    pub sinc_len: usize,
    /// The cutoff of the filter, in hundredths of the Nyquist frequency.
    pub cutoff_percent: u32,
    /// How many points of the filter are stored between two taps.
    pub oversampling_factor: usize,
    /// How far the ratio of the rates may later be changed, as a factor.
    pub max_relative_ratio: u32,
    /// The number of input samples that one call takes: the whole buffer.
    pub chunk_size: usize,
    /// The number of channels: the buffer is mono.
    pub channels: usize,
}

/// The settings for resampling a mono buffer of `input_len` samples in one
/// call.
pub fn resampler_settings(input_len: usize) -> (settings: ResamplerSettings)
    ensures
        settings == (ResamplerSettings {
            sinc_len: 256,
            cutoff_percent: 95,
            oversampling_factor: 256,
            max_relative_ratio: 2,
            chunk_size: input_len,
            channels: 1,
        }),
{
    ResamplerSettings {
        sinc_len: 256,
        cutoff_percent: 95,
        oversampling_factor: 256,
        max_relative_ratio: 2,
        chunk_size: input_len,
        channels: 1,
    }
}

/// Whether a buffer decoded at `sample_rate` has to be resampled.
pub fn needs_resampling(sample_rate: u32) -> (needed: bool)
    ensures
        needed == (sample_rate != TARGET_SAMPLE_RATE),
{
    sample_rate != TARGET_SAMPLE_RATE
}

} // verus!
