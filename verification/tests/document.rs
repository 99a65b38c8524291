use typist::config::OutputFormat;
use typist::document::Document;
use typist::events::{EditCommand, LlmAction};

#[test]
fn test_append_and_render() {
    let mut doc = Document::new(OutputFormat::PlainText);
    doc.append_text("Hello world.");
    doc.append_text("How are you?");
    assert_eq!(doc.render(), "Hello world. How are you?");
}

#[test]
fn test_new_paragraph() {
    let mut doc = Document::new(OutputFormat::PlainText);
    doc.append_text("First paragraph.");
    doc.new_paragraph();
    doc.append_text("Second paragraph.");
    assert_eq!(doc.render(), "First paragraph.\n\nSecond paragraph.");
}

#[test]
fn test_undo_redo() {
    let mut doc = Document::new(OutputFormat::PlainText);
    doc.append_text("Hello.");
    doc.append_text("World.");
    assert_eq!(doc.render(), "Hello. World.");

    assert!(doc.undo());
    assert_eq!(doc.render(), "Hello.");

    assert!(doc.redo());
    assert_eq!(doc.render(), "Hello. World.");
}

#[test]
fn test_delete_last_sentence() {
    let mut doc = Document::new(OutputFormat::PlainText);
    doc.append_text("First sentence. Second sentence.");
    doc.delete_last_sentence();
    assert_eq!(doc.render(), "First sentence.");
}

#[test]
fn test_delete_last_paragraph() {
    let mut doc = Document::new(OutputFormat::PlainText);
    doc.append_text("First.");
    doc.new_paragraph();
    doc.append_text("Second.");
    assert_eq!(doc.paragraph_count(), 2);

    doc.delete_last_paragraph();
    assert_eq!(doc.render(), "First.");
}

#[test]
fn test_insert_heading_markdown() {
    let mut doc = Document::new(OutputFormat::Markdown);
    doc.insert_heading("Introduction");
    doc.append_text("Some content here.");
    assert!(doc.render().contains("# Introduction"));
}

#[test]
fn test_insert_bullet_markdown() {
    let mut doc = Document::new(OutputFormat::Markdown);
    doc.insert_bullet("Item one");
    doc.insert_bullet("Item two");
    let rendered = doc.render();
    assert!(rendered.contains("- Item one"));
    assert!(rendered.contains("- Item two"));
}

#[test]
fn test_clear() {
    let mut doc = Document::new(OutputFormat::PlainText);
    doc.append_text("Some content.");
    doc.clear();
    assert!(doc.is_empty());
    // Should be undoable
    assert!(doc.undo());
    assert_eq!(doc.render(), "Some content.");
}

#[test]
fn test_word_count() {
    let mut doc = Document::new(OutputFormat::PlainText);
    doc.append_text("Hello world foo bar.");
    assert_eq!(doc.word_count(), 4);
}

#[test]
fn a_new_document_is_empty() {
    let doc = Document::new(OutputFormat::Markdown);
    assert!(doc.is_empty());
    assert_eq!(doc.render(), "");
    assert_eq!(doc.render_lines(), vec!["1. ".to_string()]);
    assert_eq!(doc.word_count(), 0);
    assert_eq!(doc.char_count(), 0);
    assert_eq!(doc.paragraph_count(), 0);
    assert_eq!(doc.output_format(), OutputFormat::Markdown);
    assert_eq!(doc.context_summary(), "[Document is empty]");
}

#[test]
fn empty_text_is_no_change() {
    let mut doc = Document::new(OutputFormat::PlainText);
    doc.append_text("");
    assert!(!doc.undo());
    assert!(!doc.redo());
}

#[test]
fn the_oldest_states_are_forgotten() {
    let mut doc = Document::new(OutputFormat::PlainText);
    for i in 0..130 {
        doc.append_text(&format!("{}", i));
    }
    let mut undone = 0;
    while doc.undo() {
        undone += 1;
    }
    assert_eq!(undone, 100);
    let left: Vec<String> = (0..30).map(|i| format!("{}", i)).collect();
    assert_eq!(doc.render(), left.join(" "));
    let mut redone = 0;
    while doc.redo() {
        redone += 1;
    }
    assert_eq!(redone, 100);
    assert_eq!(doc.word_count(), 130);
}

#[test]
fn every_kind_of_change_is_undone() {
    let mut doc = Document::new(OutputFormat::PlainText);
    doc.append_text("One. Two.");
    let before = doc.render_lines();
    let actions = vec![
        LlmAction::Dictate { text: "Three.".to_string() },
        LlmAction::Command { action: EditCommand::NewParagraph, text: None },
        LlmAction::Command { action: EditCommand::DeleteLastSentence, text: None },
        LlmAction::Command { action: EditCommand::DeleteLastParagraph, text: None },
        LlmAction::Command { action: EditCommand::ClearAll, text: None },
        LlmAction::Command { action: EditCommand::InsertHeading, text: Some("h".to_string()) },
        LlmAction::Command { action: EditCommand::InsertBullet, text: Some("b".to_string()) },
    ];
    for action in &actions {
        doc.apply_action(action);
        assert_ne!(doc.render_lines(), before);
        doc.apply_action(&LlmAction::Command { action: EditCommand::Undo, text: None });
        assert_eq!(doc.render_lines(), before);
        doc.apply_action(&LlmAction::Command { action: EditCommand::Redo, text: None });
        assert_ne!(doc.render_lines(), before);
        assert!(doc.undo());
    }
}

#[test]
fn a_change_forgets_what_was_undone() {
    let mut doc = Document::new(OutputFormat::PlainText);
    doc.append_text("a");
    assert!(doc.undo());
    doc.append_text("b");
    assert!(!doc.redo());
    assert_eq!(doc.render(), "b");
}

#[test]
fn actions_without_effect() {
    let mut doc = Document::new(OutputFormat::PlainText);
    doc.append_text("text");
    doc.apply_action(&LlmAction::Conversation { response: "hello".to_string() });
    doc.apply_action(&LlmAction::Command { action: EditCommand::InsertHeading, text: None });
    doc.apply_action(&LlmAction::Command { action: EditCommand::InsertBullet, text: None });
    assert_eq!(doc.render(), "text");
    assert!(doc.undo());
    assert!(!doc.undo());
}

#[test]
fn the_only_sentence_is_cleared() {
    let mut doc = Document::new(OutputFormat::PlainText);
    doc.append_text("Only one sentence.");
    doc.delete_last_sentence();
    assert_eq!(doc.render_lines(), vec!["1. ".to_string()]);
    doc.delete_last_sentence();
    assert_eq!(doc.render_lines(), vec!["1. ".to_string()]);
}

#[test]
fn sentences_end_in_several_ways() {
    let cases = vec![
        ("Really? Yes!", "Really?"),
        ("Stop! Now", "Stop!"),
        ("One. Two.   ", "One."),
        ("Wait...", "Wait.."),
        ("   ", ""),
        ("第一句。第二句。", "第一句。"),
        ("好！真的？", "好！"),
        ("你好。 There.", "你好。"),
    ];
    for (text, kept) in cases {
        let mut doc = Document::new(OutputFormat::PlainText);
        doc.append_text(text);
        doc.delete_last_sentence();
        assert_eq!(doc.render_lines(), vec![format!("1. {}", kept)]);
    }
}

#[test]
fn deleting_what_was_just_dictated() {
    let mut doc = Document::new(OutputFormat::PlainText);
    doc.append_text("First.");
    doc.append_text("Second sentence");
    doc.delete_last_sentence();
    assert_eq!(doc.render(), "First.");
}

#[test]
fn the_only_paragraph_is_cleared() {
    let mut doc = Document::new(OutputFormat::PlainText);
    doc.append_text("text");
    doc.delete_last_paragraph();
    assert_eq!(doc.render_lines(), vec!["1. ".to_string()]);
    assert!(doc.undo());
    assert_eq!(doc.render(), "text");
}

#[test]
fn headings_and_bullets_are_written() {
    let mut doc = Document::new(OutputFormat::PlainText);
    doc.insert_heading("Straße one");
    doc.insert_bullet("item");
    doc.insert_bullet("item two");
    assert_eq!(
        doc.render_lines(),
        vec![
            "1. ".to_string(),
            "2. STRASSE ONE".to_string(),
            "3. • item".to_string(),
            "4. • item two".to_string(),
        ]
    );
    let mut doc = Document::new(OutputFormat::Markdown);
    doc.insert_heading("Title");
    assert_eq!(doc.render_lines(), vec!["1. ".to_string(), "2. # Title".to_string(), "3. ".to_string()]);
    assert_eq!(doc.render(), "# Title");
}

#[test]
fn formats_toggle() {
    let mut doc = Document::new(OutputFormat::PlainText);
    doc.append_text("x");
    doc.toggle_format();
    assert_eq!(doc.output_format(), OutputFormat::Markdown);
    assert_eq!(doc.format, OutputFormat::Markdown);
    doc.toggle_format();
    assert_eq!(doc.output_format(), OutputFormat::PlainText);
    assert_eq!(doc.render(), "x");
}

#[test]
fn documents_are_counted() {
    let mut doc = Document::new(OutputFormat::PlainText);
    doc.append_text(" two\u{3000}words ");
    doc.new_paragraph();
    doc.append_text("第一点");
    assert_eq!(doc.word_count(), 3);
    assert_eq!(doc.word_total(), 3);
    assert_eq!(doc.char_count(), 14);
    assert_eq!(doc.char_total(), 14);
    assert_eq!(doc.paragraph_count(), 2);
}

#[test]
fn short_summaries_show_everything() {
    let mut doc = Document::new(OutputFormat::PlainText);
    doc.append_text("Hello world.");
    doc.new_paragraph();
    doc.append_text("Bye.");
    assert_eq!(
        doc.context_summary(),
        "[Document: 2 paragraphs, 3 words]\n--- Recent content ---\nHello world.\n\nBye."
    );
}

#[test]
fn long_summaries_show_the_end() {
    let mut doc = Document::new(OutputFormat::PlainText);
    let text = "a".repeat(500);
    doc.append_text(&text);
    assert_eq!(
        doc.context_summary(),
        format!("[Document: 1 paragraphs, 1 words]\n--- Recent content ---\n{}", text)
    );
    doc.append_text("b");
    assert_eq!(
        doc.context_summary(),
        format!("[Document: 1 paragraphs, 2 words]\n--- Recent content ---\n...{} b", "a".repeat(498))
    );
}

#[test]
fn long_summaries_keep_characters_whole() {
    let mut doc = Document::new(OutputFormat::PlainText);
    doc.append_text(&"中".repeat(200));
    assert_eq!(
        doc.context_summary(),
        format!("[Document: 1 paragraphs, 1 words]\n--- Recent content ---\n...{}", "中".repeat(166))
    );
}

#[test]
fn a_new_paragraph_separates() {
    let mut doc = Document::new(OutputFormat::PlainText);
    doc.append_text("a");
    doc.new_paragraph();
    doc.new_paragraph();
    assert_eq!(doc.render(), "a");
    doc.append_text("b");
    assert_eq!(doc.render(), "a\n\nb");
    assert_eq!(doc.paragraph_count(), 2);
    doc.delete_last_paragraph();
    doc.delete_last_paragraph();
    assert_eq!(doc.render_lines(), vec!["1. a".to_string()]);
}

#[test]
fn everything_undone_can_be_redone() {
    let mut doc = Document::new(OutputFormat::Markdown);
    doc.insert_heading("Plan");
    doc.append_text("First.");
    doc.insert_bullet("Item");
    doc.delete_last_sentence();
    let before = doc.render_lines();
    for n in 1..5 {
        for _ in 0..n {
            assert!(doc.undo());
        }
        for _ in 0..n {
            assert!(doc.redo());
        }
        assert_eq!(doc.render_lines(), before);
        assert!(!doc.redo());
    }
}

#[test]
fn lines_are_numbered() {
    let mut doc = Document::new(OutputFormat::PlainText);
    for i in 0..12 {
        if i > 0 {
            doc.new_paragraph();
        }
        doc.append_text("x");
    }
    let lines = doc.render_lines();
    assert_eq!(lines.len(), 12);
    for (i, line) in lines.iter().enumerate() {
        assert_eq!(*line, format!("{}. x", i + 1));
    }
}

#[test]
fn the_counts_are_those_of_the_text() {
    let mut doc = Document::new(OutputFormat::Markdown);
    doc.append_text("One two, three.");
    doc.insert_heading("A Straße");
    doc.append_text("中文 text");
    doc.new_paragraph();
    doc.insert_bullet("item");
    let text = doc.render();
    assert_eq!(doc.word_count(), text.split_whitespace().count());
    let gaps = doc.paragraph_count() - 1;
    assert_eq!(text.chars().count(), doc.char_count() + 2 * gaps);
}

#[test]
fn a_hundred_changes_can_be_undone() {
    for n in [1, 7, 100, 101, 150] {
        let mut doc = Document::new(OutputFormat::PlainText);
        let mut states = vec![doc.render()];
        for i in 0..n {
            doc.append_text(&format!("word{}", i));
            states.push(doc.render());
        }
        let most = if n < 100 { n } else { 100 };
        for k in 1..=most {
            assert!(doc.undo());
            assert_eq!(doc.render(), states[n - k]);
        }
        assert!(!doc.undo());
        assert_eq!(doc.render(), states[n - most]);
    }
}

#[test]
fn plain_headings_are_in_upper_case() {
    for (text, heading) in [("Next part", "NEXT PART"), ("第一章 a", "第一章 A"), ("1. x-y!", "1. X-Y!")] {
        let mut doc = Document::new(OutputFormat::PlainText);
        doc.insert_heading(text);
        assert_eq!(doc.render(), heading);
    }
}
