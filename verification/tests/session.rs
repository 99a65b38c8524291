use typist::config::{Config, OutputFormat, OutputSource};
use typist::document::Document;
use typist::events::{AppEvent, EditCommand, LlmAction};
use typist::session::{
    classification_event, file_submitted, handle_app_event, handle_event_at, handle_transcript,
    llm_description, output_failed, output_reaction, source_failed, transcription_event, Reaction,
};
use typist::ui::App;

fn app() -> App<f32> {
    App::new(Document::new(OutputFormat::PlainText), 0.0)
}

fn config(key: &str, output_file: Option<&str>) -> Config {
    let vars = vec![("LLM_API_KEY".to_string(), key.to_string())];
    let mut config = Config::from_env(&vars);
    config.output_file = output_file.map(|p| p.to_string());
    config
}

fn flash(app: &App<f32>) -> &str {
    match &app.flash_message {
        Some((message, _)) => message.as_str(),
        None => "",
    }
}

fn transcript(text: &str) -> AppEvent<f32> {
    AppEvent::TranscriptReady { text: text.to_string() }
}

#[test]
fn progress_is_shown() {
    let mut app = app();
    let config = config("", None);
    let steps: Vec<(AppEvent<f32>, &str)> = vec![
        (AppEvent::SpeechStarted, "🗣️ Listening — Speaking detected..."),
        (AppEvent::Transcribing, "⏳ Transcribing..."),
        (AppEvent::ClassifyingIntent, "🧠 Classifying intent..."),
        (AppEvent::StatusMessage("note".to_string()), "note"),
    ];
    for (event, status) in steps {
        assert!(matches!(handle_app_event(&mut app, event, &config), Reaction::Nothing));
        assert_eq!(app.status, status);
        assert!(!app.is_processing);
    }
    handle_app_event(&mut app, AppEvent::AudioLevelUpdate(0.25), &config);
    assert_eq!(app.audio_level, 0.25);
    assert_eq!(app.status, "note");
}

#[test]
fn segments_are_transcribed() {
    let mut app = app();
    let event = AppEvent::SpeechSegmentReady { samples: vec![0.5_f32], sample_rate: 8000 };
    match handle_app_event(&mut app, event, &config("", None)) {
        Reaction::Transcribe { samples, sample_rate } => {
            assert_eq!(samples, vec![0.5]);
            assert_eq!(sample_rate, 8000);
        }
        _ => panic!("expected a transcription"),
    }
    assert!(app.is_processing);
    assert_eq!(app.status, "⏳ Transcribing...");
}

#[test]
fn blank_transcripts_are_dropped() {
    let mut app = app();
    app.is_processing = true;
    let r = handle_app_event(&mut app, transcript(" \n"), &config("key", Some("o")));
    assert!(matches!(r, Reaction::Nothing));
    assert!(!app.is_processing);
    assert!(app.transcript_log.is_empty());
    assert!(app.document.is_empty());
}

#[test]
fn offline_transcripts_are_parsed_locally() {
    let mut app = app();
    let config = config("  ", Some("out.txt"));
    match handle_app_event(&mut app, transcript(" Hello there. "), &config) {
        Reaction::WriteOutput { path, content } => {
            assert_eq!(path, "out.txt");
            assert_eq!(content, "Hello there.");
        }
        _ => panic!("expected the output file to be written"),
    }
    match handle_app_event(&mut app, transcript("UNDO!"), &config) {
        Reaction::WriteOutput { content, .. } => assert_eq!(content, ""),
        _ => panic!("expected the output file to be written"),
    }
    assert_eq!(app.transcript_log[0].raw_text, " Hello there. ");
    assert_eq!(app.transcript_log[1].detail, "Undo");
    assert_eq!(app.status, "Ready — Listening...");
}

#[test]
fn the_recogniser_is_typed_as_it_is() {
    let mut app = app();
    app.output_source = OutputSource::Asr;
    let r = handle_app_event(&mut app, transcript("undo "), &config("key", None));
    assert!(matches!(r, Reaction::Nothing));
    assert_eq!(app.document.render(), "undo ");
    assert_eq!(app.transcript_log[0].intent, "dictate");
}

#[test]
fn transcripts_are_classified() {
    let mut app = app();
    app.document.append_text("Before.");
    app.is_processing = true;
    let r = handle_transcript(
        &mut app,
        "um after".to_string(),
        "08:00:00".to_string(),
        &config("key", Some("o")),
    );
    match r {
        Reaction::Classify { text, context } => {
            assert_eq!(text, "um after");
            assert_eq!(
                context,
                "[Document: 1 paragraphs, 1 words]\n--- Recent content ---\nBefore."
            );
        }
        _ => panic!("expected a classification"),
    }
    assert!(app.is_processing);
    assert_eq!(app.status, "🧠 Classifying intent...");
    assert_eq!(app.document.render(), "Before.");
    assert_eq!(app.transcript_log[0].timestamp, "08:00:00");
    assert_eq!(app.transcript_log[0].intent, "");
}

#[test]
fn classifications_are_applied() {
    let mut app = app();
    let config = config("key", Some("o"));
    let dictate = AppEvent::LlmResponse(LlmAction::Dictate { text: "Text.".to_string() });
    app.is_processing = true;
    match handle_event_at(&mut app, dictate, String::new(), &config) {
        Reaction::WriteOutput { path, content } => {
            assert_eq!((path.as_str(), content.as_str()), ("o", "Text."))
        }
        _ => panic!("expected the output file to be written"),
    }
    assert!(!app.is_processing);
    // The rendered text does not change
    let quiet = vec![
        LlmAction::Command { action: EditCommand::NewParagraph, text: None },
        LlmAction::Conversation { response: "Yes?".to_string() },
        LlmAction::Command { action: EditCommand::Redo, text: None },
    ];
    for action in quiet {
        let r = handle_app_event(&mut app, AppEvent::LlmResponse(action), &config);
        assert!(matches!(r, Reaction::Nothing));
    }
    assert_eq!(app.conversation_response, Some("Yes?".to_string()));
    assert_eq!(app.document.render(), "Text.");
}

#[test]
fn errors_are_shown() {
    let mut app = app();
    app.is_processing = true;
    let r = handle_app_event(&mut app, AppEvent::Error("boom".to_string()), &config("", None));
    assert!(matches!(r, Reaction::Nothing));
    assert_eq!(flash(&app), "❌ boom");
    assert!(!app.is_processing);
    output_failed(&mut app, "disk full");
    assert_eq!(flash(&app), "❌ Output file error: disk full");
    source_failed(&mut app, "no device");
    assert_eq!(flash(&app), "Audio source error: no device");
    file_submitted(&mut app);
    assert_eq!(app.status, "⏳ Transcribing audio file...");
}

#[test]
fn output_files_are_optional() {
    let mut app = app();
    app.document.append_text("x");
    assert!(matches!(output_reaction(&app, &config("", None)), Reaction::Nothing));
    match output_reaction(&app, &config("", Some("p"))) {
        Reaction::WriteOutput { path, content } => {
            assert_eq!((path.as_str(), content.as_str()), ("p", "x"))
        }
        _ => panic!("expected the output file to be written"),
    }
}

#[test]
fn stale_results_are_dropped() {
    assert!(transcription_event::<f32>(Ok("t".to_string()), 1, 2).is_none());
    assert!(transcription_event::<f32>(Err("e".to_string()), 1, 2).is_none());
    let action = LlmAction::Dictate { text: "a".to_string() };
    assert!(classification_event::<f32>(Ok(action), "r".to_string(), 1, 2).is_none());
}

#[test]
fn results_become_events() {
    match transcription_event::<f32>(Ok("t".to_string()), 3, 3) {
        Some(AppEvent::TranscriptReady { text }) => assert_eq!(text, "t"),
        _ => panic!("expected a transcript"),
    }
    match transcription_event::<f32>(Err("down".to_string()), 3, 3) {
        Some(AppEvent::Error(message)) => assert_eq!(message, "ASR error: down"),
        _ => panic!("expected an error"),
    }
    let action = LlmAction::Conversation { response: "a".to_string() };
    match classification_event::<f32>(Ok(action), "r".to_string(), 3, 3) {
        Some(AppEvent::LlmResponse(LlmAction::Conversation { response })) => {
            assert_eq!(response, "a")
        }
        _ => panic!("expected the action"),
    }
    match classification_event::<f32>(Err("down".to_string()), "raw".to_string(), 3, 3) {
        Some(AppEvent::LlmResponse(LlmAction::Dictate { text })) => assert_eq!(text, "raw"),
        _ => panic!("expected dictation"),
    }
}

#[test]
fn language_models_are_described() {
    assert_eq!(llm_description(&config("", None)), "Direct (Offline)");
    assert_eq!(llm_description(&config("key", None)), "gpt-4o-mini");
}
