use typist::config::{OutputFormat, OutputSource};
use typist::document::Document;
use typist::events::{EditCommand, LlmAction};
use typist::ui::App;

fn app() -> App<f32> {
    App::new(Document::new(OutputFormat::Markdown), 0.0)
}

#[test]
fn a_new_application_listens() {
    let app = app();
    assert!(app.is_listening && !app.is_processing && !app.should_quit && app.continuous_audio);
    assert_eq!(app.status, "Ready — Listening...");
    assert!(app.transcript_log.is_empty() && app.flash_message.is_none());
    assert!(app.conversation_response.is_none() && app.source_prompt.is_none());
    assert_eq!((app.doc_scroll, app.log_scroll), (0, 0));
    assert_eq!(app.audio_level, 0.0);
    assert_eq!(app.output_source, OutputSource::Llm);
    assert!(app.document.is_empty());
}

#[test]
fn sessions_begin_with_a_source() {
    let mut app = app();
    app.begin_session(
        OutputSource::Asr,
        "asr".to_string(),
        "llm".to_string(),
        "File: a.wav".to_string(),
        false,
    );
    assert_eq!(app.output_source, OutputSource::Asr);
    assert_eq!((app.asr_info.as_str(), app.llm_info.as_str()), ("asr", "llm"));
    assert_eq!(app.audio_source_info, "File: a.wav");
    assert!(!app.is_listening && !app.continuous_audio);
    assert_eq!(app.status, "Ready");
}

#[test]
fn sources_are_switched() {
    let mut app = app();
    app.is_processing = true;
    app.audio_level = 0.5;
    app.switch_source("File: b.mp3".to_string(), false, 0.0);
    assert_eq!(app.audio_source_info, "File: b.mp3");
    assert!(!app.is_listening && !app.continuous_audio && !app.is_processing);
    assert_eq!(app.audio_level, 0.0);
    assert_eq!(app.status, "Ready");
    app.switch_source("Microphone".to_string(), true, 0.0);
    assert!(app.is_listening && app.continuous_audio);
    assert_eq!(app.ready_status(), "Ready — Listening...");
}

#[test]
fn entries_carry_the_time_of_day() {
    let mut app = app();
    app.add_transcript_entry("heard", "chat", "made of it");
    let entry = &app.transcript_log[0];
    assert_eq!(entry.raw_text, "heard");
    assert_eq!(entry.intent, "chat");
    assert_eq!(entry.detail, "made of it");
    let t: Vec<char> = entry.timestamp.chars().collect();
    assert_eq!(t.len(), 8);
    for (i, c) in t.iter().enumerate() {
        if i == 2 || i == 5 {
            assert_eq!(*c, ':');
        } else {
            assert!(c.is_ascii_digit());
        }
    }
    let hour: u32 = entry.timestamp[0..2].parse().unwrap();
    let minute: u32 = entry.timestamp[3..5].parse().unwrap();
    let second: u32 = entry.timestamp[6..8].parse().unwrap();
    assert!(hour < 24 && minute < 60 && second <= 60);
}

#[test]
fn the_log_is_limited() {
    let mut app = app();
    for i in 0..105 {
        app.log_entry("08:00:00".to_string(), &format!("{}", i), "", "");
        assert_eq!(app.log_scroll as usize, app.transcript_log.len() - 1);
    }
    assert_eq!(app.transcript_log.len(), 100);
    assert_eq!(app.transcript_log[0].raw_text, "5");
    assert_eq!(app.transcript_log[99].raw_text, "104");
    assert_eq!(app.log_scroll, 99);
}

#[test]
fn actions_fill_in_the_log() {
    let mut app = app();
    app.apply_action(LlmAction::Dictate { text: "before any entry".to_string() });
    assert!(app.transcript_log.is_empty());

    app.log_entry("08:00:00".to_string(), "um hello", "", "");
    app.apply_action(LlmAction::Dictate { text: "Hello.".to_string() });
    assert_eq!(app.transcript_log[0].raw_text, "um hello");
    assert_eq!(app.transcript_log[0].intent, "dictate");
    assert_eq!(app.transcript_log[0].detail, "Hello.");
    assert_eq!(app.document.render(), "before any entry Hello.");

    app.log_entry("08:00:01".to_string(), "new paragraph", "", "");
    app.apply_action(LlmAction::Command { action: EditCommand::NewParagraph, text: None });
    assert_eq!(app.transcript_log[1].intent, "command");
    assert_eq!(app.transcript_log[1].detail, "NewParagraph");

    app.apply_action(LlmAction::Command {
        action: EditCommand::InsertHeading,
        text: Some("Plan".to_string()),
    });
    assert_eq!(app.transcript_log[1].detail, "InsertHeading: Plan");
    assert_eq!(app.document.render(), "before any entry Hello.\n\n# Plan");

    app.apply_action(LlmAction::Conversation { response: "Sure.".to_string() });
    assert_eq!(app.transcript_log[1].intent, "chat");
    assert_eq!(app.transcript_log[1].detail, "Sure.");
    assert_eq!(app.conversation_response, Some("Sure.".to_string()));
    assert_eq!(app.document.render(), "before any entry Hello.\n\n# Plan");
}

#[test]
fn labels_of_commands() {
    for command in [
        EditCommand::NewParagraph,
        EditCommand::DeleteLastSentence,
        EditCommand::DeleteLastParagraph,
        EditCommand::Undo,
        EditCommand::Redo,
        EditCommand::ClearAll,
        EditCommand::InsertHeading,
        EditCommand::InsertBullet,
    ] {
        assert_eq!(command.log_label(), format!("{:?}", command));
    }
}

#[test]
fn flash_messages_expire() {
    let mut app = app();
    app.set_flash("hello".to_string());
    assert_eq!(app.flash_message.as_ref().unwrap().0, "hello");
    app.tick();
    assert!(app.flash_message.is_some());
    app.expire_flash(3_000_000_000);
    assert!(app.flash_message.is_some());
    app.expire_flash(3_000_000_001);
    assert!(app.flash_message.is_none());
    app.tick();
    assert!(app.flash_message.is_none());
}

#[test]
fn getting_ready() {
    let mut app = app();
    app.is_processing = true;
    app.status = "busy".to_string();
    app.make_ready();
    assert!(!app.is_processing);
    assert_eq!(app.status, "Ready — Listening...");
}
