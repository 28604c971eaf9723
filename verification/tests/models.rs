use whisper_transcribe::models::{
    audio_extensions, classify_extension, classify_lowercase, get_model_url, model_destination,
    FileKind, WhisperModel,
};

const MODELS: [WhisperModel; 5] = [
    WhisperModel::Tiny,
    WhisperModel::Base,
    WhisperModel::Small,
    WhisperModel::Medium,
    WhisperModel::Large,
];

#[test]
fn url_is_base_followed_by_filename() {
    assert_eq!(
        get_model_url("ggml-tiny.bin"),
        "https://huggingface.co/ggerganov/whisper.cpp/resolve/main/ggml-tiny.bin"
    );
    assert_eq!(
        get_model_url(""),
        "https://huggingface.co/ggerganov/whisper.cpp/resolve/main/"
    );
    assert_eq!(
        get_model_url("a b/ü.bin"),
        "https://huggingface.co/ggerganov/whisper.cpp/resolve/main/a b/ü.bin"
    );
}

#[test]
fn destination_is_under_models_directory() {
    assert_eq!(model_destination("ggml-base.bin"), "models/ggml-base.bin");
    assert_eq!(model_destination(""), "models/");
}

#[test]
fn each_model_has_its_name_and_file() {
    let names = ["tiny", "base", "small", "medium", "large"];
    let files = [
        "ggml-tiny.bin",
        "ggml-base.bin",
        "ggml-small.bin",
        "ggml-medium.bin",
        "ggml-large-v3-turbo.bin",
    ];
    for (place, model) in MODELS.iter().enumerate() {
        assert_eq!(model.name(), names[place]);
        assert_eq!(model.filename(), files[place]);
        assert_eq!(model.index(), place);
        assert_eq!(WhisperModel::from_index(place), Some(*model));
    }
}

#[test]
fn model_index_past_the_list_is_none() {
    assert_eq!(WhisperModel::from_index(5), None);
    assert_eq!(WhisperModel::from_index(usize::MAX), None);
}

#[test]
fn model_url_and_destination_use_the_filename() {
    assert_eq!(
        WhisperModel::Large.url(),
        "https://huggingface.co/ggerganov/whisper.cpp/resolve/main/ggml-large-v3-turbo.bin"
    );
    assert_eq!(WhisperModel::Large.destination(), "models/ggml-large-v3-turbo.bin");
    for model in MODELS {
        assert_eq!(model.url(), get_model_url(model.filename()));
        assert_eq!(model.destination(), model_destination(model.filename()));
    }
}

#[test]
fn lowercase_extensions_are_classified() {
    assert_eq!(classify_lowercase("bin"), FileKind::Model);
    for extension in ["wav", "mp3", "flac", "ogg", "m4a", "aac", "wma", "opus", "webm"] {
        assert_eq!(classify_lowercase(extension), FileKind::Audio, "{}", extension);
    }
    for extension in ["", "txt", "binx", "bi", "mp4", "wave", " mp3", "MP3", "Bin"] {
        assert_eq!(classify_lowercase(extension), FileKind::Unsupported, "{:?}", extension);
    }
}

#[test]
fn extension_case_plays_no_part() {
    assert_eq!(classify_extension("BIN"), FileKind::Model);
    assert_eq!(classify_extension("Bin"), FileKind::Model);
    assert_eq!(classify_extension("bin"), FileKind::Model);
    assert_eq!(classify_extension("MP3"), FileKind::Audio);
    assert_eq!(classify_extension("Flac"), FileKind::Audio);
    assert_eq!(classify_extension("WebM"), FileKind::Audio);
    assert_eq!(classify_extension("OPUS"), FileKind::Audio);
    assert_eq!(classify_extension(""), FileKind::Unsupported);
    assert_eq!(classify_extension("TXT"), FileKind::Unsupported);
}

#[test]
fn classification_goes_by_the_lowercase_form() {
    for extension in ["BIN", "Wav", "mP3", "OGG", "M4A", "aAc", "WMA", "exe", "ÄÖ"] {
        assert_eq!(
            classify_extension(extension),
            classify_lowercase(&extension.to_lowercase())
        );
    }
}

#[test]
fn all_models_are_listed_in_order() {
    assert_eq!(WhisperModel::all(), MODELS.to_vec());
}

#[test]
fn audio_extensions_are_the_nine_known_ones() {
    assert_eq!(
        audio_extensions(),
        vec!["wav", "mp3", "flac", "ogg", "m4a", "aac", "wma", "opus", "webm"]
    );
    for extension in audio_extensions() {
        assert_eq!(classify_lowercase(extension), FileKind::Audio);
    }
}
