use typist::events::{EditCommand, LlmAction};
use typist::intent::{classify_lowercase, parse_local_intent};

#[test]
fn test_parse_local_intent_commands() {
    match parse_local_intent("new paragraph") {
        LlmAction::Command { action, .. } => {
            assert_eq!(action, EditCommand::NewParagraph);
        }
        _ => panic!("Expected NewParagraph"),
    }

    match parse_local_intent("換行。") {
        LlmAction::Command { action, .. } => {
            assert_eq!(action, EditCommand::NewParagraph);
        }
        _ => panic!("Expected NewParagraph"),
    }

    match parse_local_intent("undo") {
        LlmAction::Command { action, .. } => {
            assert_eq!(action, EditCommand::Undo);
        }
        _ => panic!("Expected Undo"),
    }

    match parse_local_intent("撤銷！") {
        LlmAction::Command { action, .. } => {
            assert_eq!(action, EditCommand::Undo);
        }
        _ => panic!("Expected Undo"),
    }
}

#[test]
fn test_parse_local_intent_dictate() {
    match parse_local_intent("Hello world, this is a test.") {
        LlmAction::Dictate { text } => {
            assert_eq!(text, "Hello world, this is a test.");
        }
        _ => panic!("Expected Dictate"),
    }
}

fn command(text: &str) -> Option<(EditCommand, Option<String>)> {
    match parse_local_intent(text) {
        LlmAction::Command { action, text } => Some((action, text)),
        LlmAction::Dictate { .. } => None,
        LlmAction::Conversation { .. } => panic!("offline classification never converses"),
    }
}

#[test]
fn every_command_phrase() {
    let phrases = vec![
        (EditCommand::NewParagraph, vec!["new paragraph", "new line", "換行", "换行", "另起一段", "下一段"]),
        (
            EditCommand::DeleteLastSentence,
            vec![
                "delete last sentence",
                "delete sentence",
                "刪除最後一句",
                "删除最后一句",
                "刪掉最後一句",
                "删掉最后一句",
            ],
        ),
        (
            EditCommand::DeleteLastParagraph,
            vec![
                "delete last paragraph",
                "delete paragraph",
                "刪除最後一段",
                "删除最后一段",
                "刪掉最後一段",
                "删掉最后一段",
            ],
        ),
        (EditCommand::Undo, vec!["undo", "撤銷", "撤销", "復原", "复原"]),
        (EditCommand::Redo, vec!["redo", "重做"]),
        (EditCommand::ClearAll, vec!["clear all", "clear document", "清空", "全部清空", "清空文件"]),
    ];
    for (expected, texts) in phrases {
        for text in texts {
            assert_eq!(command(text), Some((expected, None)));
            assert_eq!(command(&format!("  \"{}\"。 ", text)), Some((expected, None)));
            assert_eq!(command(&text.to_uppercase()), Some((expected, None)));
        }
    }
}

#[test]
fn headings_and_bullets_are_spoken() {
    for prefix in ["heading", "標題", "标题", "Heading", "HEADING"] {
        assert_eq!(
            command(&format!("{}  Main Title .", prefix)),
            Some((EditCommand::InsertHeading, Some("main title".to_string())))
        );
    }
    for prefix in ["bullet", "項目", "列表"] {
        assert_eq!(
            command(&format!("{} Buy milk!", prefix)),
            Some((EditCommand::InsertBullet, Some("buy milk".to_string())))
        );
    }
    assert_eq!(command("heading"), None);
    assert_eq!(command("headings are useful"), None);
}

#[test]
fn dictation_is_trimmed_and_otherwise_kept() {
    match parse_local_intent("  Undo the DAMAGE.\n") {
        LlmAction::Dictate { text } => assert_eq!(text, "Undo the DAMAGE."),
        _ => panic!("expected dictation"),
    }
}

#[test]
fn classification_goes_by_the_lowercase_form() {
    match classify_lowercase("redo", "anything") {
        LlmAction::Command { action, text } => {
            assert_eq!(action, EditCommand::Redo);
            assert_eq!(text, None);
        }
        _ => panic!("expected a command"),
    }
    match classify_lowercase("anything", " UNDO ") {
        LlmAction::Dictate { text } => assert_eq!(text, "UNDO"),
        _ => panic!("expected dictation"),
    }
}

#[test]
fn the_way_of_speaking_does_not_matter() {
    for before in ["", " ", "\u{3000}\n"] {
        for marks in ["", ".", "!?", "。！"] {
            for after in ["", "\t", "  "] {
                let say = |text: &str| command(&format!("{}{}{}{}", before, text, marks, after));
                assert_eq!(say("UNDO"), Some((EditCommand::Undo, None)));
                assert_eq!(say("uNdO"), Some((EditCommand::Undo, None)));
                assert_eq!(say("撤銷"), Some((EditCommand::Undo, None)));
                assert_eq!(say("Clear ALL"), Some((EditCommand::ClearAll, None)));
                assert_eq!(
                    say("Bullet Buy Milk"),
                    Some((EditCommand::InsertBullet, Some("buy milk".to_string())))
                );
            }
        }
    }
}
