use typist::config::OutputFormat;
use typist::document::Document;
use typist::panels::{document_panel, format_indicator, log_panel, status_panel, PanelColor};
use typist::ui::App;

fn app() -> App<f32> {
    App::new(Document::new(OutputFormat::Markdown), 0.0)
}

#[test]
fn an_empty_document_panel() {
    let panel = document_panel(&app());
    assert_eq!(panel.title, " 📄 Document [Markdown] — 0 words, 0 paragraphs ");
    assert_eq!(
        panel.text,
        "Start speaking to begin typing...\n\nYour dictated text will appear here."
    );
    assert_eq!(panel.color, PanelColor::DarkGray);
    assert_eq!(panel.scroll, 0);
}

#[test]
fn a_document_panel_with_an_answer() {
    let mut app = app();
    app.document.append_text("Two words.");
    app.doc_scroll = 3;
    app.conversation_response = Some("Take your time.".to_string());
    let panel = document_panel(&app);
    assert_eq!(panel.title, " 📄 Document [Markdown] — 2 words, 1 paragraphs ");
    assert_eq!(panel.text, "Two words.\n\n💬 Agent: Take your time.");
    assert_eq!(panel.color, PanelColor::White);
    assert_eq!(panel.scroll, 3);
}

#[test]
fn log_lines() {
    let mut app = app();
    app.log_entry("08:00:00".to_string(), "heard", "", "");
    app.log_entry("08:00:01".to_string(), &"x".repeat(31), "dictate", &"y".repeat(36));
    app.log_entry("08:00:02".to_string(), "c", "command", "Undo");
    app.log_entry("08:00:03".to_string(), "d", "chat", "Hi");
    app.log_entry("08:00:04".to_string(), "e", "other", "?");
    let lines = log_panel(&app);
    assert_eq!(lines.len(), 5);
    assert_eq!(lines[0].timestamp, "[08:00:00] ");
    assert_eq!(lines[0].label, "[...] ");
    assert_eq!(lines[0].raw_text, "heard");
    assert_eq!(lines[0].detail, "");
    assert_eq!(lines[1].label, "[dictate] ");
    assert_eq!(lines[1].raw_text, format!("{}...", "x".repeat(27)));
    assert_eq!(lines[1].detail, format!(" → {}...", "y".repeat(32)));
    let colors: Vec<PanelColor> = lines.iter().map(|l| l.color).collect();
    assert_eq!(
        colors,
        vec![
            PanelColor::DarkGray,
            PanelColor::Green,
            PanelColor::Yellow,
            PanelColor::Blue,
            PanelColor::DarkGray
        ]
    );
}

#[test]
fn the_latest_entries_are_shown() {
    let mut app = app();
    for i in 0..25 {
        app.log_entry("t".to_string(), &format!("{}", i), "", "");
    }
    let lines = log_panel(&app);
    assert_eq!(lines.len(), 20);
    assert_eq!(lines[0].raw_text, "5");
    assert_eq!(lines[19].raw_text, "24");
}

#[test]
fn status_panels() {
    let mut app = app();
    app.document.append_text("ab cd");
    let panel = status_panel(&app);
    assert_eq!(panel.text, "🎤 Ready — Listening...");
    assert_eq!(panel.color, PanelColor::Green);
    assert_eq!(panel.stats, "Words: 2\nChars: 5\nParas: 1");
    app.is_listening = false;
    app.status = "⏸ Paused".to_string();
    assert_eq!(status_panel(&app).text, "⏸ ⏸ Paused");
    assert_eq!(status_panel(&app).color, PanelColor::Red);
    app.is_processing = true;
    app.set_flash("note".to_string());
    assert_eq!(status_panel(&app).text, "⏳ note");
    assert_eq!(status_panel(&app).color, PanelColor::Yellow);
}

#[test]
fn the_format_is_indicated() {
    assert_eq!(format_indicator(&app()), " [Markdown] ");
}
