use typist::config::Config;
use typist::events::{EditCommand, LlmAction};
use typist::json::quote;
use typist::llm::{
    action_from_fields, action_or_dictation, build_system_prompt, message_or_error,
    parse_llm_response, read_reply, LlmClient, LlmError, ReplyFields,
};

#[test]
fn test_parse_dictate() {
    let input = r#"{"intent": "dictate", "text": "Hello world."}"#;
    let action = parse_llm_response(input, None);
    match action {
        LlmAction::Dictate { text } => assert_eq!(text, "Hello world."),
        _ => panic!("Expected Dictate"),
    }
}

#[test]
fn test_parse_command() {
    let input = r#"{"intent": "command", "action": "new_paragraph"}"#;
    let action = parse_llm_response(input, None);
    match action {
        LlmAction::Command { action, text } => {
            assert_eq!(action, EditCommand::NewParagraph);
            assert!(text.is_none());
        }
        _ => panic!("Expected Command"),
    }
}

#[test]
fn test_parse_conversation() {
    let input = r#"{"intent": "conversation", "response": "Take your time."}"#;
    let action = parse_llm_response(input, None);
    match action {
        LlmAction::Conversation { response } => assert_eq!(response, "Take your time."),
        _ => panic!("Expected Conversation"),
    }
}

#[test]
fn test_parse_command_with_text() {
    let input = r#"{"intent": "command", "action": "insert_heading", "text": "Introduction"}"#;
    let action = parse_llm_response(input, None);
    match action {
        LlmAction::Command { action, text } => {
            assert_eq!(action, EditCommand::InsertHeading);
            assert_eq!(text, Some("Introduction".to_string()));
        }
        _ => panic!("Expected Command with text"),
    }
}

#[test]
fn a_direct_decoding_is_taken_as_it_is() {
    let direct = LlmAction::Conversation { response: "yes".to_string() };
    match parse_llm_response("not json", Some(direct)) {
        LlmAction::Conversation { response } => assert_eq!(response, "yes"),
        _ => panic!("expected the direct decoding"),
    }
}

#[test]
fn what_is_missing_is_filled_in() {
    match parse_llm_response("{}", None) {
        LlmAction::Dictate { text } => assert_eq!(text, ""),
        _ => panic!("expected dictation"),
    }
    match parse_llm_response(r#"{"text": "no intent"}"#, None) {
        LlmAction::Dictate { text } => assert_eq!(text, "no intent"),
        _ => panic!("expected dictation"),
    }
    match parse_llm_response(r#"{"intent": "command", "action": "fly", "text": 7}"#, None) {
        LlmAction::Command { action, text } => {
            assert_eq!(action, EditCommand::NewParagraph);
            assert_eq!(text, None);
        }
        _ => panic!("expected a command"),
    }
    match parse_llm_response(r#"{"intent": "conversation"}"#, None) {
        LlmAction::Conversation { response } => assert_eq!(response, "I understand."),
        _ => panic!("expected conversation"),
    }
}

#[test]
fn doubtful_replies_are_typed() {
    for content in ["  plain words \n", "\"a string\"", "[1, 2]", "{broken", r#"{"intent": "sing"}"#] {
        match parse_llm_response(content, None) {
            LlmAction::Dictate { text } => {
                if content.starts_with('"') || content.starts_with('[') {
                    assert_eq!(text, "");
                } else {
                    assert_eq!(text, content.trim());
                }
            }
            _ => panic!("expected dictation"),
        }
    }
}

#[test]
fn every_command_has_its_name() {
    let names = vec![
        ("new_paragraph", EditCommand::NewParagraph),
        ("delete_last_sentence", EditCommand::DeleteLastSentence),
        ("delete_last_paragraph", EditCommand::DeleteLastParagraph),
        ("undo", EditCommand::Undo),
        ("redo", EditCommand::Redo),
        ("clear_all", EditCommand::ClearAll),
        ("insert_heading", EditCommand::InsertHeading),
        ("insert_bullet", EditCommand::InsertBullet),
    ];
    let prompt = build_system_prompt("");
    for (name, command) in names {
        assert_eq!(EditCommand::from_wire_name(name), Some(command));
        assert!(prompt.contains(&format!("- \"{}\" — ", name)));
        let fields = ReplyFields {
            intent: Some("command".to_string()),
            text: None,
            action: Some(name.to_string()),
            response: None,
        };
        match action_from_fields(&fields) {
            Some(LlmAction::Command { action, text: None }) => assert_eq!(action, command),
            _ => panic!("expected a command"),
        }
    }
    assert_eq!(EditCommand::from_wire_name("Undo"), None);
}

#[test]
fn unknown_intents_ask_for_nothing() {
    let fields = ReplyFields {
        intent: Some("other".to_string()),
        text: Some("t".to_string()),
        action: None,
        response: None,
    };
    assert!(action_from_fields(&fields).is_none());
    match action_or_dictation(Some(fields), " raw ") {
        LlmAction::Dictate { text } => assert_eq!(text, "raw"),
        _ => panic!("expected dictation"),
    }
    match action_or_dictation(None, " raw ") {
        LlmAction::Dictate { text } => assert_eq!(text, "raw"),
        _ => panic!("expected dictation"),
    }
}

#[test]
fn the_prompt_holds_the_document() {
    let prompt = build_system_prompt("[Document is empty]");
    assert!(prompt.starts_with("You are a professional typist AI assistant."));
    assert!(prompt.contains("CURRENT DOCUMENT STATE:\n[Document is empty]\n\nRESPONSE FORMAT"));
    assert!(prompt.contains(r#"   {"intent": "dictate", "text": "The cleaned, properly formatted text."}"#));
    assert!(prompt.ends_with("meta-commentary indicate conversation."));
    assert!(!prompt.contains("{{") && !prompt.contains("}}"));
}

#[test]
fn classification_requests() {
    let vars = vec![
        ("LLM_API_KEY".to_string(), "key".to_string()),
        ("LLM_BASE_URL".to_string(), "http://host/v1//".to_string()),
        ("LLM_MODEL".to_string(), "m".to_string()),
    ];
    let client = LlmClient::new(&Config::from_env(&vars));
    let request = client.classification_request("say \"this\"", "context");
    assert_eq!(request.url, "http://host/v1/chat/completions");
    assert_eq!(
        request.headers,
        vec![
            ("Authorization".to_string(), "Bearer key".to_string()),
            ("Content-Type".to_string(), "application/json".to_string()),
        ]
    );
    let body: serde_json::Value = serde_json::from_str(&request.body).unwrap();
    let at = |pointer: &str| body.pointer(pointer).and_then(|v| v.as_str()).unwrap();
    assert_eq!(at("/model"), "m");
    assert_eq!(at("/messages/0/role"), "system");
    assert_eq!(at("/messages/0/content"), build_system_prompt("context"));
    assert_eq!(at("/messages/1/role"), "user");
    assert_eq!(at("/messages/1/content"), "say \"this\"");
    assert_eq!(at("/response_format/type"), "json_object");
    assert_eq!(body.pointer("/temperature").and_then(|v| v.as_f64()), Some(0.1));
    assert_eq!(body.as_object().unwrap().len(), 4);
    assert!(request.body.ends_with(
        ",{\"content\":\"say \\\"this\\\"\",\"role\":\"user\"}],\"model\":\"m\",\"response_format\":{\"type\":\"json_object\"},\"temperature\":0.1}"
    ));
}

#[test]
fn texts_are_quoted() {
    assert_eq!(quote(""), "\"\"");
    assert_eq!(quote("a\"b\\c/d"), "\"a\\\"b\\\\c/d\"");
    assert_eq!(
        quote("\u{8}\t\n\u{c}\r\u{0}\u{1f}\u{7f}"),
        "\"\\b\\t\\n\\f\\r\\u0000\\u001f\u{7f}\""
    );
    assert_eq!(quote("中 🎤"), "\"中 🎤\"");
}

#[test]
fn replies_are_read() {
    let body = r#"{"choices": [{"message": {"content": "{\"intent\": \"dictate\"}"}}]}"#;
    assert_eq!(read_reply(true, "200 OK", body).unwrap(), "{\"intent\": \"dictate\"}");

    let e = read_reply(false, "500 Internal Server Error", "oops").unwrap_err();
    assert!(matches!(&e, LlmError::Api { .. }));
    assert_eq!(e.message(), "LLM API returned error 500 Internal Server Error: oops");

    let e = read_reply(true, "200 OK", "<html>").unwrap_err();
    assert!(matches!(&e, LlmError::NotJson));
    assert_eq!(e.message(), "Failed to parse LLM response as JSON");

    for body in ["{}", r#"{"choices": []}"#, r#"{"choices": [{"message": {"content": null}}]}"#] {
        let e = read_reply(true, "200 OK", body).unwrap_err();
        assert!(matches!(&e, LlmError::MissingContent));
        assert_eq!(e.message(), "LLM response missing choices[0].message.content");
    }
}

#[test]
fn what_was_found_in_a_reply() {
    assert_eq!(message_or_error(Some(Some("m".to_string()))).unwrap(), "m");
    assert!(matches!(message_or_error(Some(None)), Err(LlmError::MissingContent)));
    assert!(matches!(message_or_error(None), Err(LlmError::NotJson)));
}

const PROMPT_BEFORE: &str = r#"You are a professional typist AI assistant. The user is dictating a document to you through voice input. Your job is to intelligently classify each spoken utterance and respond with a JSON object.

CONTEXT:
- The user speaks naturally. They may dictate content, give editing commands, or have casual conversation.
- You must accurately distinguish between these three intents.
- For dictation, clean up the speech: remove filler words (um, uh, like, you know, basically, 那个, 就是, 嗯), fix grammar, add proper punctuation, and produce clean written text.
- The user may speak in English or Mandarin (中文). Handle both languages naturally. Output in whatever language the user speaks.

CURRENT DOCUMENT STATE:
"#;

const PROMPT_BEHIND: &str = r#"

RESPONSE FORMAT — Respond with ONLY a JSON object (no other text, no markdown):

1. DICTATION — The user is saying content to be typed into the document:
   {"intent": "dictate", "text": "The cleaned, properly formatted text."}

   Examples:
   - "um so the project deadline is uh next Friday I think" → {"intent": "dictate", "text": "The project deadline is next Friday."}
   - "第一点我们需要完成市场调研" → {"intent": "dictate", "text": "第一点，我们需要完成市场调研。"}
   - "dear Mr Johnson comma I am writing to inform you period" → {"intent": "dictate", "text": "Dear Mr. Johnson, I am writing to inform you."}
   - "write down meeting notes for today" followed by "first item review the budget" → {"intent": "dictate", "text": "First item: review the budget."}

2. COMMAND — The user is giving an editing instruction:
   {"intent": "command", "action": "<action_name>", "text": "<optional text>"}

   Available actions:
   - "new_paragraph" — Start a new paragraph
   - "delete_last_sentence" — Delete the last sentence
   - "delete_last_paragraph" — Delete the last paragraph
   - "undo" — Undo the last change
   - "redo" — Redo the last undone change
   - "clear_all" — Clear the entire document
   - "insert_heading" — Insert a heading (requires "text" field)
   - "insert_bullet" — Insert a bullet point (requires "text" field)

   Examples:
   - "new paragraph" → {"intent": "command", "action": "new_paragraph"}
   - "delete that last sentence" / "删掉最后一句" → {"intent": "command", "action": "delete_last_sentence"}
   - "add a heading that says Introduction" → {"intent": "command", "action": "insert_heading", "text": "Introduction"}
   - "undo" / "撤销" → {"intent": "command", "action": "undo"}

3. CONVERSATION — The user is talking to you, not dictating:
   {"intent": "conversation", "response": "Your brief reply."}

   Examples:
   - "what have I written so far?" / "我写了什么" → {"intent": "conversation", "response": "You've written ..."}
   - "hmm let me think" → {"intent": "conversation", "response": "Take your time."}
   - "how many words is that?" → {"intent": "conversation", "response": "Your document has X words."}

RULES:
- Respond with ONLY the JSON object.
- When ambiguous, lean toward dictation — the user's primary goal is typing.
- Phrases like "write down", "type", "put", "add" indicate dictation.
- Phrases like "delete", "remove", "undo", "new paragraph", "heading", "撤销", "删除" indicate commands.
- Questions, thinking aloud, and meta-commentary indicate conversation."#;

#[test]
fn the_prompt_is_the_same_for_every_document() {
    for context in ["", "[Document is empty]", "First.\n\n第二段"] {
        let prompt = build_system_prompt(context);
        assert_eq!(prompt, format!("{}{}{}", PROMPT_BEFORE, context, PROMPT_BEHIND));
    }
}

#[test]
fn every_command_is_listed() {
    let commands = EditCommand::list();
    assert_eq!(commands.len(), 8);
    for command in commands {
        assert_eq!(EditCommand::from_wire_name(command.wire_text()), Some(command));
        assert!(PROMPT_BEHIND.contains(&format!("\"{}\"", command.wire_text())));
        assert!(PROMPT_BEHIND.contains(&format!(" — {}\n", command.purpose_text())));
    }
}
