use typist::config::Config;
use typist::transcriber::{
    check_download, clean_local_transcript, dirs_cache_path, locate_model, model_candidates,
    model_filename, model_url, normalized_model_filename, read_transcript, transcript_from,
    ModelLocation, Transcriber,
};

fn transcriber(vars: &[(&str, &str)]) -> Transcriber {
    let vars: Vec<(String, String)> =
        vars.iter().map(|(n, v)| (n.to_string(), v.to_string())).collect();
    Transcriber::new(&Config::from_env(&vars))
}

fn pair(name: &str, value: &str) -> (String, String) {
    (name.to_string(), value.to_string())
}

#[test]
fn the_local_backend() {
    let t = transcriber(&[("WHISPER_MODEL", "base"), ("ASR_LANGUAGE", "zh")]);
    assert_eq!(t.backend_name(), "Local Whisper (base)");
    assert!(t.upload_request().is_none());
    assert_eq!(t.spoken_language(), Some("zh".to_string()));
    assert_eq!(transcriber(&[]).backend_name(), "Local Whisper (tiny)");
    assert_eq!(transcriber(&[]).spoken_language(), None);
}

#[test]
fn the_remote_backend() {
    let t = transcriber(&[
        ("ASR_BACKEND", "remote"),
        ("ASR_API_URL", "http://asr"),
        ("ASR_API_KEY", "key"),
        ("ASR_LANGUAGE", "en"),
    ]);
    assert_eq!(t.backend_name(), "API (whisper-1)");
    assert_eq!(t.spoken_language(), Some("en".to_string()));
    let request = t.upload_request().unwrap();
    assert_eq!(request.url, "http://asr");
    assert_eq!(request.headers, vec![pair("Authorization", "Bearer key")]);
    assert_eq!(request.file_field, "file");
    assert_eq!(request.file_name, "audio.wav");
    assert_eq!(request.mime_type, "audio/wav");
    assert_eq!(request.fields, vec![pair("model", "whisper-1"), pair("language", "en")]);

    let request = transcriber(&[("ASR_BACKEND", "api")]).upload_request().unwrap();
    assert_eq!(request.url, "http://localhost:8080/v1/audio/transcriptions");
    assert_eq!(request.headers, vec![]);
    assert_eq!(request.fields, vec![pair("model", "whisper-1")]);

    let t = transcriber(&[("ASR_BACKEND", "api"), ("ASR_LANGUAGE", "")]);
    assert_eq!(t.upload_request().unwrap().fields, vec![pair("model", "whisper-1")]);
}

#[test]
fn transcripts_are_read() {
    assert_eq!(read_transcript(true, "200 OK", r#"{"text": " Hello. "}"#).unwrap(), "Hello.");
    assert_eq!(read_transcript(true, "200 OK", " plain words\n").unwrap(), "plain words");
    assert_eq!(read_transcript(true, "200 OK", r#"{"text": 5}"#).unwrap(), r#"{"text": 5}"#);
    assert_eq!(read_transcript(true, "200 OK", "\"text\"").unwrap(), "\"text\"");
    let e = read_transcript(false, "503 Service Unavailable", "later").unwrap_err();
    assert_eq!(e.message(), "ASR API returned error 503 Service Unavailable: later");
    assert_eq!(transcript_from(Some(" a ".to_string()), "b"), "a");
    assert_eq!(transcript_from(None, " b "), "b");
}

#[test]
fn punctuation_alone_is_silence() {
    for text in ["", " ", "...", " . , ! ", "?!\n"] {
        assert_eq!(clean_local_transcript(text), "");
    }
    assert_eq!(clean_local_transcript(" Hello. "), "Hello.");
    assert_eq!(clean_local_transcript("。"), "。");
}

#[test]
fn model_file_names() {
    assert_eq!(model_filename("tiny"), "ggml-tiny.bin");
    assert_eq!(model_filename(" Base \n"), "ggml-base.bin");
    assert_eq!(model_filename("Custom.BIN"), "custom.bin");
    assert_eq!(normalized_model_filename(".bin"), ".bin");
    assert_eq!(normalized_model_filename("bin"), "ggml-bin.bin");
    assert_eq!(normalized_model_filename("ggml-tiny.bin"), "ggml-tiny.bin");
    assert_eq!(
        model_url("ggml-tiny.bin"),
        "https://huggingface.co/ggerganov/whisper.cpp/resolve/main/ggml-tiny.bin"
    );
}

#[test]
fn models_are_looked_for() {
    let home = Some("/home/me".to_string());
    assert_eq!(
        dirs_cache_path(&home, "f.bin"),
        vec!["/home/me", ".cache", "typist", "models", "f.bin"]
    );
    assert_eq!(dirs_cache_path(&None, "f.bin"), vec!["models", "f.bin"]);
    let places = model_candidates(&home, "f.bin");
    assert_eq!(places.len(), 3);
    assert_eq!(places[0], vec!["models", "f.bin"]);
    assert_eq!(places[1], vec!["../models", "f.bin"]);
    assert_eq!(places[2], dirs_cache_path(&home, "f.bin"));
}

#[test]
fn models_are_found() {
    assert_eq!(locate_model(Some(true), &vec![true]), ModelLocation::Custom);
    assert_eq!(locate_model(Some(false), &vec![true]), ModelLocation::CustomMissing);
    assert_eq!(locate_model(None, &vec![false, true, true]), ModelLocation::Candidate(1));
    assert_eq!(locate_model(None, &vec![true, false, true]), ModelLocation::Candidate(0));
    assert_eq!(locate_model(None, &vec![false, false, false]), ModelLocation::Download);
}

#[test]
fn downloads_are_checked() {
    assert_eq!(check_download(true, "200 OK", "u"), Ok(()));
    assert_eq!(
        check_download(false, "404 Not Found", "http://u"),
        Err("Failed to download Whisper model: HTTP 404 Not Found from http://u".to_string())
    );
}
