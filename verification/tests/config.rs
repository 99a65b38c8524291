use typist::config::{
    list_variable_names, AsrBackend, Config, OutputFormat, OutputSource, DEFAULT_ASR_API_URL,
};

fn config(vars: &[(&str, &str)]) -> Config {
    let vars: Vec<(String, String)> =
        vars.iter().map(|(n, v)| (n.to_string(), v.to_string())).collect();
    Config::from_env(&vars)
}

#[test]
fn zero_configuration() {
    let c = config(&[]);
    assert_eq!(c.asr_backend, AsrBackend::Local);
    assert_eq!(c.asr_api_url, "http://localhost:8080/v1/audio/transcriptions");
    assert_eq!(c.asr_api_key, "");
    assert_eq!(c.asr_model, "whisper-1");
    assert_eq!(c.asr_language, "auto");
    assert_eq!(c.whisper_model, "tiny");
    assert_eq!(c.local_whisper_model_path, None);
    assert_eq!(c.llm_api_key, "");
    assert_eq!(c.llm_base_url, "https://api.openai.com/v1");
    assert_eq!(c.llm_model, "gpt-4o-mini");
    assert_eq!(c.silence_threshold, "0.02");
    assert_eq!(c.silence_duration_secs, "1.5");
    assert_eq!(c.max_record_secs, "30");
    assert_eq!(c.output_format, OutputFormat::Markdown);
    assert_eq!(c.output_source, OutputSource::Llm);
    assert_eq!(c.output_file, None);
    assert_eq!(c.typing_speed_cps, 0);
    assert_eq!(c.save_directory, "./output");
    assert!(!c.has_llm_api());
}

#[test]
fn every_variable_is_read() {
    let c = config(&[
        ("OUTPUT_FORMAT", "PLAIN"),
        ("SAVE_DIRECTORY", "dir"),
        ("ASR_API_KEY", "k"),
        ("ASR_API_URL", "u"),
        ("ASR_MODEL", "m"),
        ("ASR_LANGUAGE", "zh"),
        ("WHISPER_MODEL", "base"),
        ("WHISPER_MODEL_SIZE", "small"),
        ("LOCAL_WHISPER_MODEL_PATH", "p"),
        ("LLM_API_KEY", "lk"),
        ("LLM_BASE_URL", "lu"),
        ("LLM_MODEL", "lm"),
        ("SILENCE_THRESHOLD", "0.5"),
        ("SILENCE_DURATION", "2"),
        ("MAX_RECORD_SECONDS", "10"),
        ("TYPING_SPEED", "12"),
    ]);
    assert_eq!(c.output_format, OutputFormat::PlainText);
    assert_eq!(c.save_directory, "dir");
    assert_eq!(c.asr_api_key, "k");
    assert_eq!(c.asr_api_url, "u");
    assert_eq!(c.asr_model, "m");
    assert_eq!(c.asr_language, "zh");
    assert_eq!(c.whisper_model, "base");
    assert_eq!(c.local_whisper_model_path, Some("p".to_string()));
    assert_eq!(c.llm_api_key, "lk");
    assert_eq!(c.llm_base_url, "lu");
    assert_eq!(c.llm_model, "lm");
    assert_eq!(c.silence_threshold, "0.5");
    assert_eq!(c.silence_duration_secs, "2");
    assert_eq!(c.max_record_secs, "10");
    assert_eq!(c.typing_speed_cps, 12);
    assert!(c.has_llm_api());
}

#[test]
fn output_formats() {
    for name in ["plain", "plaintext", "text", "txt", "Text", "TXT"] {
        assert_eq!(config(&[("OUTPUT_FORMAT", name)]).output_format, OutputFormat::PlainText);
    }
    for name in ["markdown", "md", "", "plain "] {
        assert_eq!(config(&[("OUTPUT_FORMAT", name)]).output_format, OutputFormat::Markdown);
    }
}

#[test]
fn backends() {
    let backend = |vars: &[(&str, &str)]| config(vars).asr_backend;
    assert_eq!(backend(&[("ASR_BACKEND", "Remote")]), AsrBackend::Remote);
    assert_eq!(backend(&[("ASR_BACKEND", "API")]), AsrBackend::Remote);
    assert_eq!(backend(&[("ASR_BACKEND", "LOCAL"), ("ASR_API_KEY", "k")]), AsrBackend::Local);
    assert_eq!(backend(&[("ASR_BACKEND", "auto"), ("ASR_API_KEY", "k")]), AsrBackend::Remote);
    assert_eq!(backend(&[("ASR_API_KEY", "  ")]), AsrBackend::Local);
    assert_eq!(backend(&[("ASR_API_URL", "http://x")]), AsrBackend::Remote);
    assert_eq!(backend(&[("ASR_API_URL", " ")]), AsrBackend::Local);
    let url = format!(" {} ", DEFAULT_ASR_API_URL);
    assert_eq!(backend(&[("ASR_API_URL", &url)]), AsrBackend::Local);
}

#[test]
fn the_older_name_of_the_model_variable() {
    assert_eq!(config(&[("WHISPER_MODEL_SIZE", "small")]).whisper_model, "small");
}

#[test]
fn blank_values() {
    assert_eq!(config(&[("LOCAL_WHISPER_MODEL_PATH", " \t")]).local_whisper_model_path, None);
    assert!(!config(&[("LLM_API_KEY", "  ")]).has_llm_api());
}

#[test]
fn typing_speeds() {
    let speed = |v: &str| config(&[("TYPING_SPEED", v)]).typing_speed_cps;
    for text in ["0", "7", "+7", "007", "4294967295", "4294967296", "-1", "", "+", "1.5", " 3", "x", "++1"] {
        assert_eq!(speed(text), text.parse::<u32>().unwrap_or(0), "{:?}", text);
    }
}

#[test]
fn the_first_value_counts_and_others_do_not_matter() {
    let c = config(&[("LLM_MODEL", "a"), ("UNRELATED", "x"), ("LLM_MODEL", "b")]);
    assert_eq!(c.llm_model, "a");
    assert_eq!(list_variable_names().len(), 17);
    assert!(list_variable_names().contains(&"LLM_MODEL"));
}

#[test]
fn display_names() {
    assert_eq!(OutputFormat::PlainText.file_extension(), "txt");
    assert_eq!(OutputFormat::Markdown.file_extension(), "md");
    assert_eq!(OutputFormat::PlainText.display_name(), "Plain Text");
    assert_eq!(OutputFormat::Markdown.display_name(), "Markdown");
    assert_eq!(AsrBackend::Local.display_name(), "Local Whisper");
    assert_eq!(AsrBackend::Remote.display_name(), "Remote ASR API");
    assert_eq!(OutputSource::Asr.display_name(), "ASR");
    assert_eq!(OutputSource::Llm.display_name(), "LLM");
    assert_eq!(OutputSource::Asr.toggle(), OutputSource::Llm);
    assert_eq!(OutputSource::Llm.toggle(), OutputSource::Asr);
}
