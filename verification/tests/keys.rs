use typist::audio::AudioSource;
use typist::config::{Config, OutputFormat, OutputSource};
use typist::document::Document;
use typist::keys::{
    choose_file, copy_finished, file_checked, handle_key_at, handle_key_event,
    handle_source_prompt, listening_toggled, paste, route_key, save_filename, save_finished,
    KeyAction, KeyCode, KeyOutcome, KeyPress, Modifiers, PromptStep,
};
use typist::ui::{App, SourcePrompt};

fn app(text: &str) -> App<f32> {
    let mut document = Document::new(OutputFormat::Markdown);
    document.append_text(text);
    App::new(document, 0.0)
}

fn config(output_file: Option<&str>) -> Config {
    let mut config = Config::from_env(&Vec::new());
    config.output_file = output_file.map(|p| p.to_string());
    config
}

fn plain(code: KeyCode) -> KeyPress {
    KeyPress { modifiers: Modifiers { control: false, other: false }, code }
}

fn control(c: char) -> KeyPress {
    KeyPress { modifiers: Modifiers { control: true, other: false }, code: KeyCode::Char(c) }
}

fn press(app: &mut App<f32>, key: KeyPress) -> KeyAction {
    handle_key_event(app, key, &config(None), true)
}

fn shown(app: &App<f32>) -> &str {
    match &app.flash_message {
        Some((message, _)) => message.as_str(),
        None => "",
    }
}

fn path(app: &App<f32>) -> Option<&str> {
    match &app.source_prompt {
        Some(SourcePrompt::FilePath(p)) => Some(p.as_str()),
        _ => None,
    }
}

#[test]
fn quitting() {
    let mut app = app("");
    assert!(matches!(press(&mut app, plain(KeyCode::Char('q'))), KeyAction::Quit));
    assert!(matches!(press(&mut app, plain(KeyCode::Esc)), KeyAction::Quit));
    assert!(matches!(press(&mut app, control('q')), KeyAction::Continue));
    let shifted = KeyPress {
        modifiers: Modifiers { control: false, other: true },
        code: KeyCode::Char('q'),
    };
    assert!(matches!(press(&mut app, shifted), KeyAction::Continue));
}

#[test]
fn saving() {
    assert_eq!(save_filename("S", OutputFormat::PlainText), "typist_S.txt");
    let mut app = app("Text.");
    match handle_key_at(&mut app, control('s'), "2024-03-01_081500", &config(None), false) {
        KeyAction::Save { filename, content } => {
            assert_eq!(filename, "typist_2024-03-01_081500.md");
            assert_eq!(content, "Text.");
        }
        _ => panic!("expected a save"),
    }
    match press(&mut app, control('s')) {
        KeyAction::Save { filename, .. } => {
            let stamp: Vec<char> =
                filename.strip_prefix("typist_").unwrap().strip_suffix(".md").unwrap().chars().collect();
            assert_eq!(stamp.len(), 17);
            for (i, c) in stamp.iter().enumerate() {
                match i {
                    4 | 7 => assert_eq!(*c, '-'),
                    10 => assert_eq!(*c, '_'),
                    _ => assert!(c.is_ascii_digit()),
                }
            }
        }
        _ => panic!("expected a save"),
    }
    save_finished(&mut app, "typist_x.md", Ok(()));
    assert_eq!(shown(&app), "✅ Saved to typist_x.md");
    save_finished(&mut app, "typist_x.md", Err("disk full".to_string()));
    assert_eq!(shown(&app), "❌ Save failed: disk full");
}

#[test]
fn copying() {
    let mut app = app("中 text");
    match press(&mut app, control('y')) {
        KeyAction::Copy { text } => {
            copy_finished(&mut app, &text, Ok(()));
            assert_eq!(shown(&app), "📋 Copied 6 chars to clipboard");
            copy_finished(&mut app, &text, Err("none".to_string()));
            assert_eq!(shown(&app), "❌ Clipboard error: none");
        }
        _ => panic!("expected a copy"),
    }
}

#[test]
fn empty_documents_are_not_exported() {
    let mut app = app("");
    assert!(matches!(press(&mut app, control('y')), KeyAction::Continue));
    assert_eq!(shown(&app), "📋 Document is empty");
    assert!(matches!(press(&mut app, control('e')), KeyAction::Continue));
    assert_eq!(shown(&app), "Document is empty");
}

#[test]
fn typing_out() {
    let mut app = app("Text.");
    match press(&mut app, control('e')) {
        KeyAction::TypeOut { text } => assert_eq!(text, "Text."),
        _ => panic!("expected typing out"),
    }
}

#[test]
fn undo_and_redo_keys() {
    let mut app = app("Text.");
    match handle_key_event(&mut app, control('z'), &config(Some("o")), false) {
        KeyAction::WriteOutput { path, content } => {
            assert_eq!((path.as_str(), content.as_str()), ("o", ""))
        }
        _ => panic!("expected the output file to be written"),
    }
    assert_eq!(shown(&app), "↩️ Undo");
    assert!(matches!(press(&mut app, control('z')), KeyAction::Continue));
    assert_eq!(shown(&app), "Nothing to undo");
    assert!(matches!(press(&mut app, control('r')), KeyAction::Continue));
    assert_eq!(shown(&app), "↪️ Redo");
    assert_eq!(app.document.render(), "Text.");
    assert!(matches!(press(&mut app, control('r')), KeyAction::Continue));
    assert_eq!(shown(&app), "Nothing to redo");
}

#[test]
fn pausing() {
    let mut app = app("");
    assert!(matches!(press(&mut app, plain(KeyCode::Char(' '))), KeyAction::ToggleListening));
    let r = handle_key_event(&mut app, plain(KeyCode::Char(' ')), &config(None), false);
    assert!(matches!(r, KeyAction::Continue));
    assert_eq!(shown(&app), "Pause is only available for live audio");
    listening_toggled(&mut app, false);
    assert!(!app.is_listening);
    assert_eq!((app.status.as_str(), shown(&app)), ("⏸ Paused", "⏸ Paused listening"));
    listening_toggled(&mut app, true);
    assert!(app.is_listening);
    assert_eq!(
        (app.status.as_str(), shown(&app)),
        ("Ready — Listening...", "▶️ Resumed listening")
    );
}

#[test]
fn toggling() {
    let mut app = app("");
    press(&mut app, plain(KeyCode::Tab));
    assert_eq!(app.document.output_format(), OutputFormat::PlainText);
    assert_eq!(shown(&app), "📝 Format: Plain Text");
    press(&mut app, plain(KeyCode::Char('m')));
    assert_eq!(app.output_source, OutputSource::Asr);
    assert_eq!(shown(&app), "Output: ASR");
    press(&mut app, plain(KeyCode::Char('m')));
    assert_eq!(app.output_source, OutputSource::Llm);
}

#[test]
fn scrolling() {
    let mut app = app("");
    press(&mut app, plain(KeyCode::Up));
    assert_eq!(app.doc_scroll, 0);
    press(&mut app, plain(KeyCode::Down));
    press(&mut app, plain(KeyCode::Down));
    press(&mut app, plain(KeyCode::Up));
    assert_eq!(app.doc_scroll, 1);
    app.doc_scroll = u16::MAX;
    press(&mut app, plain(KeyCode::Down));
    assert_eq!(app.doc_scroll, u16::MAX);
    assert!(matches!(press(&mut app, plain(KeyCode::Other)), KeyAction::Continue));
}

#[test]
fn live_sources_are_chosen() {
    for (c, source) in [('2', AudioSource::Microphone), ('3', AudioSource::SystemAudio)] {
        let mut app = app("");
        press(&mut app, plain(KeyCode::Char('a')));
        assert!(matches!(app.source_prompt, Some(SourcePrompt::Choice)));
        assert!(matches!(
            handle_source_prompt(&mut app, plain(KeyCode::Char('x'))),
            PromptStep::Nothing
        ));
        assert!(app.source_prompt.is_some());
        match handle_source_prompt(&mut app, plain(KeyCode::Char(c))) {
            PromptStep::Chosen(chosen) => assert_eq!(chosen, source),
            _ => panic!("expected a source"),
        }
        assert!(app.source_prompt.is_none());
    }
}

#[test]
fn paths_are_entered() {
    let mut app = app("");
    app.source_prompt = Some(SourcePrompt::Choice);
    handle_source_prompt(&mut app, plain(KeyCode::Char('1')));
    assert_eq!(path(&app), Some(""));
    handle_source_prompt(&mut app, plain(KeyCode::Backspace));
    assert_eq!(path(&app), Some(""));
    handle_source_prompt(&mut app, plain(KeyCode::Char('中')));
    handle_source_prompt(&mut app, plain(KeyCode::Char('x')));
    handle_source_prompt(&mut app, plain(KeyCode::Backspace));
    handle_source_prompt(&mut app, control('v'));
    handle_source_prompt(&mut app, plain(KeyCode::Tab));
    paste(&mut app, ".wav\" ");
    assert_eq!(path(&app), Some("中.wav\" "));
    match handle_source_prompt(&mut app, plain(KeyCode::Enter)) {
        PromptStep::CheckFile(entered) => assert_eq!(entered, "中.wav"),
        _ => panic!("expected a check"),
    }
    assert_eq!(choose_file(&mut app, "中.wav".to_string(), false), None);
    assert_eq!(shown(&app), "Audio file error: Audio file does not exist: 中.wav");
    assert!(app.source_prompt.is_some());
    assert_eq!(
        choose_file(&mut app, "中.wav".to_string(), true),
        Some(AudioSource::File("中.wav".to_string()))
    );
    assert!(app.source_prompt.is_none());
}

#[test]
fn prompts_are_left() {
    let mut app = app("");
    for prompt in [SourcePrompt::Choice, SourcePrompt::FilePath("p".to_string())] {
        app.source_prompt = Some(prompt);
        assert!(matches!(handle_source_prompt(&mut app, plain(KeyCode::Esc)), PromptStep::Nothing));
        assert!(app.source_prompt.is_none());
    }
    paste(&mut app, "text");
    assert!(app.source_prompt.is_none());
    assert!(matches!(handle_source_prompt(&mut app, plain(KeyCode::Enter)), PromptStep::Nothing));
    assert_eq!(file_checked(&mut app, Ok(AudioSource::Microphone)), Some(AudioSource::Microphone));
}

#[test]
fn keys_go_to_the_prompt_first() {
    let mut app = app("");
    app.source_prompt = Some(SourcePrompt::FilePath(String::new()));
    let r = route_key(&mut app, plain(KeyCode::Char('q')), &config(None), true);
    assert!(matches!(r, KeyOutcome::Prompt(PromptStep::Nothing)));
    assert_eq!(path(&app), Some("q"));
    app.source_prompt = None;
    let r = route_key(&mut app, plain(KeyCode::Char('q')), &config(None), true);
    assert!(matches!(r, KeyOutcome::Shortcut(KeyAction::Quit)));
}

#[test]
fn other_keys_change_nothing() {
    let mut app = app("some text");
    app.set_flash("still here".to_string());
    let (message, since) = app.flash_message.clone().unwrap();
    let scroll = app.doc_scroll;
    for key in [
        plain(KeyCode::Char('x')),
        plain(KeyCode::Enter),
        plain(KeyCode::Backspace),
        control('q'),
        control('s'),
        control('y'),
        control('e'),
        plain(KeyCode::Char('q')),
        plain(KeyCode::Esc),
    ] {
        press(&mut app, key);
        assert_eq!(app.flash_message, Some((message.clone(), since)));
        assert_eq!(app.document.render(), "some text");
        assert_eq!(app.doc_scroll, scroll);
        assert!(app.is_listening && app.source_prompt.is_none());
    }
}
