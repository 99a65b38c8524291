//! The language-model client: its requests, and how its replies are read.
use crate::config::{or_default, Config, ConfigView};
use crate::events::{ActionView, EditCommand, LlmAction};
use crate::json::{at, json_document, parse_json, quote, quoted, string_at};
use crate::text::{
    all_in, concat, concat3, is_whitespace, pairs, same, text_view, trim, trim_end, trim_end_of,
    trimmed, CharClass,
};
use crate::text_laws::{law_trimming_is_exact, law_trimming_the_end_is_exact};
use vstd::prelude::*;

verus! {

/// What the classifier is told about its job.
pub const PROMPT_INTRODUCTION: &'static str = r#"You are a professional typist AI assistant. The user is dictating a document to you through voice input. Your job is to intelligently classify each spoken utterance and respond with a JSON object.

CONTEXT:
- The user speaks naturally. They may dictate content, give editing commands, or have casual conversation.
- You must accurately distinguish between these three intents.
- For dictation, clean up the speech: remove filler words (um, uh, like, you know, basically, 那个, 就是, 嗯), fix grammar, add proper punctuation, and produce clean written text.
- The user may speak in English or Mandarin (中文). Handle both languages naturally. Output in whatever language the user speaks.

"#;

/// What stands before the state of the document.
pub const PROMPT_STATE: &'static str = "CURRENT DOCUMENT STATE:\n";

/// What the classifier is told behind the state of the document, up to the actions.
pub const PROMPT_FORMAT: &'static str = r#"

RESPONSE FORMAT — Respond with ONLY a JSON object (no other text, no markdown):

1. DICTATION — The user is saying content to be typed into the document:
   {"intent": "dictate", "text": "The cleaned, properly formatted text."}

   Examples:
   - "um so the project deadline is uh next Friday I think" → {"intent": "dictate", "text": "The project deadline is next Friday."}
   - "第一点我们需要完成市场调研" → {"intent": "dictate", "text": "第一点，我们需要完成市场调研。"}
   - "dear Mr Johnson comma I am writing to inform you period" → {"intent": "dictate", "text": "Dear Mr. Johnson, I am writing to inform you."}
   - "write down meeting notes for today" followed by "first item review the budget" → {"intent": "dictate", "text": "First item: review the budget."}

2. COMMAND — The user is giving an editing instruction:
   {"intent": "command", "action": "<action_name>", "text": "<optional text>"}

   Available actions:
"#;

/// What the classifier is told behind the actions.
pub const PROMPT_RULES: &'static str = r#"
   Examples:
   - "new paragraph" → {"intent": "command", "action": "new_paragraph"}
   - "delete that last sentence" / "删掉最后一句" → {"intent": "command", "action": "delete_last_sentence"}
   - "add a heading that says Introduction" → {"intent": "command", "action": "insert_heading", "text": "Introduction"}
   - "undo" / "撤销" → {"intent": "command", "action": "undo"}

3. CONVERSATION — The user is talking to you, not dictating:
   {"intent": "conversation", "response": "Your brief reply."}

   Examples:
   - "what have I written so far?" / "我写了什么" → {"intent": "conversation", "response": "You've written ..."}
   - "hmm let me think" → {"intent": "conversation", "response": "Take your time."}
   - "how many words is that?" → {"intent": "conversation", "response": "Your document has X words."}

RULES:
- Respond with ONLY the JSON object.
- When ambiguous, lean toward dictation — the user's primary goal is typing.
- Phrases like "write down", "type", "put", "add" indicate dictation.
- Phrases like "delete", "remove", "undo", "new paragraph", "heading", "撤销", "删除" indicate commands.
- Questions, thinking aloud, and meta-commentary indicate conversation."#;

/// The line that tells the classifier about an action.
pub open spec fn action_line(command: EditCommand) -> Seq<char> {
    "   - \""@ + command.wire_name() + "\" — "@ + command.purpose() + "\n"@
}

/// The lines that tell the classifier about some actions.
pub open spec fn action_lines(commands: Seq<EditCommand>) -> Seq<char>
    decreases commands.len(),
{
    if commands.len() == 0 {
        Seq::empty()
    } else {
        action_lines(commands.drop_last()) + action_line(commands.last())
    }
}

/// What the classifier is told before the state of the document.
pub open spec fn prompt_head() -> Seq<char> {
    PROMPT_INTRODUCTION@ + PROMPT_STATE@
}

/// What the classifier is told behind the state of the document.
pub open spec fn prompt_tail() -> Seq<char> {
    PROMPT_FORMAT@ + action_lines(EditCommand::every()) + PROMPT_RULES@
}

/// The instructions for the classifier, with the state of the document in them.
pub open spec fn system_prompt(document_context: Seq<char>) -> Seq<char> {
    prompt_head() + document_context + prompt_tail()
}

/// Writes the lines that tell the classifier about the actions.
fn write_action_lines() -> (r: String)
    ensures
        r@ == action_lines(EditCommand::every()),
{
    let commands: Vec<EditCommand> = EditCommand::list();
    let mut r: String = String::new();
    let mut i: usize = 0;
    while i < commands.len()
        invariant
            i <= commands@.len(),
            r@ == action_lines(commands@.take(i as int)),
        decreases commands@.len() - i,
    {
        let command: EditCommand = commands[i];
        assert(commands@.take(i + 1).drop_last() =~= commands@.take(i as int));
        let ghost before = r@;
        r.append("   - \"");
        r.append(command.wire_text());
        r.append("\" — ");
        r.append(command.purpose_text());
        r.append("\n");
        assert(r@ =~= before + action_line(command));
        i = i + 1;
    }
    assert(commands@.take(i as int) =~= commands@);
    r
}

/// Build the system prompt for the LLM intent classifier.
pub fn build_system_prompt(document_context: &str) -> (r: String)
    ensures
        r@ == system_prompt(document_context@),
{
    let mut r: String = concat3(PROMPT_INTRODUCTION, PROMPT_STATE, document_context);
    r.append(PROMPT_FORMAT);
    r.append(write_action_lines().as_str());
    r.append(PROMPT_RULES);
    assert(r@ =~= system_prompt(document_context@));
    r
}

/// LLM client for intent classification.
///
/// Describes the requests to an OpenAI-compatible chat completions API.
#[derive(Debug)]
pub struct LlmClient {
    pub base_url: String,
    pub api_key: String,
    pub model: String,
}

/// A client with its texts taken by their characters.
#[verifier::ext_equal]
pub struct LlmClientView {
    pub base_url: Seq<char>,
    pub api_key: Seq<char>,
    pub model: Seq<char>,
}

impl View for LlmClient {
    type V = LlmClientView;

    open spec fn view(&self) -> LlmClientView {
        LlmClientView { base_url: self.base_url@, api_key: self.api_key@, model: self.model@ }
    }
}

/// A request to the chat completions API: where it goes, its headers, and its body.
#[derive(Debug)]
pub struct ChatRequest {
    pub url: String,
    pub headers: Vec<(String, String)>,
    pub body: String,
}

/// A request with its texts taken by their characters.
#[verifier::ext_equal]
pub struct ChatRequestView {
    pub url: Seq<char>,
    pub headers: Seq<(Seq<char>, Seq<char>)>,
    pub body: Seq<char>,
}

impl View for ChatRequest {
    type V = ChatRequestView;

    open spec fn view(&self) -> ChatRequestView {
        ChatRequestView { url: self.url@, headers: pairs(self.headers@), body: self.body@ }
    }
}

/// The body of a request: a JSON document with the instructions and the utterance as the two
/// messages, which asks the model for a JSON object, at a low temperature.
pub open spec fn chat_body(
    model: Seq<char>,
    system_message: Seq<char>,
    user_message: Seq<char>,
) -> Seq<char> {
    "{\"messages\":[{\"content\":"@ + quoted(system_message)
        + ",\"role\":\"system\"},{\"content\":"@ + quoted(user_message)
        + ",\"role\":\"user\"}],\"model\":"@ + quoted(model)
        + ",\"response_format\":{\"type\":\"json_object\"},\"temperature\":0.1}"@
}

/// Writes the body of a request.
fn write_chat_body(model: &str, system_message: &str, user_message: &str) -> (r: String)
    ensures
        r@ == chat_body(model@, system_message@, user_message@),
{
    let mut r: String = "{\"messages\":[{\"content\":".to_string();
    r.append(quote(system_message).as_str());
    r.append(",\"role\":\"system\"},{\"content\":");
    r.append(quote(user_message).as_str());
    r.append(",\"role\":\"user\"}],\"model\":");
    r.append(quote(model).as_str());
    r.append(",\"response_format\":{\"type\":\"json_object\"},\"temperature\":0.1}");
    r
}

impl LlmClientView {
    /// The client that a configuration describes.
    pub open spec fn configured(config: ConfigView) -> LlmClientView {
        LlmClientView {
            base_url: trim_end_of(config.llm_base_url, CharClass::Slash),
            api_key: config.llm_api_key,
            model: config.llm_model,
        }
    }

    /// The request that classifies an utterance.
    pub open spec fn request(
        self,
        transcript: Seq<char>,
        document_context: Seq<char>,
    ) -> ChatRequestView {
        ChatRequestView {
            url: self.base_url + "/chat/completions"@,
            headers: seq![
                ("Authorization"@, "Bearer "@ + self.api_key),
                ("Content-Type"@, "application/json"@),
            ],
            body: chat_body(self.model, system_prompt(document_context), transcript),
        }
    }
}

impl LlmClient {
    /// Create a new LLM client with the given configuration.
    pub fn new(config: &Config) -> (r: LlmClient)
        ensures
            r@ == LlmClientView::configured(config@),
            r@ == (LlmClientView {
                base_url: trim_end_of(config@.llm_base_url, CharClass::Slash),
                api_key: config@.llm_api_key,
                model: config@.llm_model,
            }),
    {
        LlmClient {
            base_url: trim_end(config.llm_base_url.as_str(), CharClass::Slash).to_string(),
            api_key: config.llm_api_key.clone(),
            model: config.llm_model.clone(),
        }
    }

    /// The request that classifies an utterance.
    pub fn classification_request(&self, transcript: &str, document_context: &str) -> (r:
        ChatRequest)
        ensures
            r@ == self@.request(transcript@, document_context@),
    {
        let mut headers: Vec<(String, String)> = Vec::new();
        headers.push(("Authorization".to_string(), concat("Bearer ", self.api_key.as_str())));
        headers.push(("Content-Type".to_string(), "application/json".to_string()));
        let r: ChatRequest = ChatRequest {
            url: concat(self.base_url.as_str(), "/chat/completions"),
            headers,
            body: write_chat_body(
                self.model.as_str(),
                build_system_prompt(document_context).as_str(),
                transcript,
            ),
        };
        assert(r@ =~= self@.request(transcript@, document_context@));
        r
    }
}

/// Why a reply of the API could not be used.
#[derive(Debug)]
pub enum LlmError {
    /// The API answered with an error status.
    Api { status: String, body: String },
    /// The reply is no JSON document.
    NotJson,
    /// The reply holds no message.
    MissingContent,
}

/// An error with its texts taken by their characters.
pub enum LlmErrorView {
    Api { status: Seq<char>, body: Seq<char> },
    NotJson,
    MissingContent,
}

impl View for LlmError {
    type V = LlmErrorView;

    open spec fn view(&self) -> LlmErrorView {
        match *self {
            LlmError::Api { status, body } => LlmErrorView::Api { status: status@, body: body@ },
            LlmError::NotJson => LlmErrorView::NotJson,
            LlmError::MissingContent => LlmErrorView::MissingContent,
        }
    }
}

impl LlmErrorView {
    /// The words for an error.
    pub open spec fn words(self) -> Seq<char> {
        match self {
            LlmErrorView::Api { status, body } => "LLM API returned error "@ + status + ": "@
                + body,
            LlmErrorView::NotJson => "Failed to parse LLM response as JSON"@,
            LlmErrorView::MissingContent => "LLM response missing choices[0].message.content"@,
        }
    }
}

impl LlmError {
    /// The words for the error.
    pub fn message(&self) -> (r: String)
        ensures
            r@ == self@.words(),
    {
        match self {
            LlmError::Api { status, body } => {
                let mut r: String = concat3("LLM API returned error ", status.as_str(), ": ");
                r.append(body.as_str());
                r
            },
            LlmError::NotJson => "Failed to parse LLM response as JSON".to_string(),
            LlmError::MissingContent =>
                "LLM response missing choices[0].message.content".to_string(),
        }
    }
}

/// The message in a reply of the API, given the strings in it.
pub open spec fn message_in(document: Option<Map<Seq<char>, Seq<char>>>) -> Result<
    Seq<char>,
    LlmErrorView,
> {
    match document {
        Some(strings) => match at(strings, "/choices/0/message/content"@) {
            Some(content) => Ok(content),
            None => Err(LlmErrorView::MissingContent),
        },
        None => Err(LlmErrorView::NotJson),
    }
}

/// The message in a reply, taken by its contents.
pub open spec fn reply_view(r: Result<String, LlmError>) -> Result<Seq<char>, LlmErrorView> {
    match r {
        Ok(content) => Ok(content@),
        Err(e) => Err(e@),
    }
}

/// Reads the message out of what was found in a reply: `None` where it is no JSON document, and
/// else the string at the place of the message.
pub fn message_or_error(found: Option<Option<String>>) -> (r: Result<String, LlmError>)
    ensures
        match found {
            Some(Some(content)) => r == Ok::<String, LlmError>(content),
            Some(None) => r matches Err(e) && e@ == LlmErrorView::MissingContent,
            None => r matches Err(e) && e@ == LlmErrorView::NotJson,
        },
{
    match found {
        Some(Some(content)) => Ok(content),
        Some(None) => Err(LlmError::MissingContent),
        None => Err(LlmError::NotJson),
    }
}

/// What is read out of a reply of the API, given the strings in it.
pub open spec fn read_from(
    success: bool,
    status: Seq<char>,
    body: Seq<char>,
    document: Option<Map<Seq<char>, Seq<char>>>,
) -> Result<Seq<char>, LlmErrorView> {
    if success {
        message_in(document)
    } else {
        Err(LlmErrorView::Api { status, body })
    }
}

/// Reads the message out of a reply of the API.
pub fn read_reply(success: bool, status: &str, body: &str) -> (r: Result<String, LlmError>)
    ensures
        reply_view(r) == read_from(success, status@, body@, json_document(body@)),
        reply_view(r) == if success {
            message_in(json_document(body@))
        } else {
            Err(LlmErrorView::Api { status: status@, body: body@ })
        },
{
    if !success {
        return Err(LlmError::Api { status: status.to_string(), body: body.to_string() });
    }
    match parse_json(body) {
        Ok(value) => message_or_error(Some(string_at(&value, "/choices/0/message/content"))),
        Err(_) => message_or_error(None),
    }
}

/// The texts that a classifier's message may hold.
#[derive(Debug)]
pub struct ReplyFields {
    pub intent: Option<String>,
    pub text: Option<String>,
    pub action: Option<String>,
    pub response: Option<String>,
}

/// The texts of a message, taken by their characters.
#[verifier::ext_equal]
pub struct ReplyFieldsView {
    pub intent: Option<Seq<char>>,
    pub text: Option<Seq<char>>,
    pub action: Option<Seq<char>>,
    pub response: Option<Seq<char>>,
}

impl View for ReplyFields {
    type V = ReplyFieldsView;

    open spec fn view(&self) -> ReplyFieldsView {
        ReplyFieldsView {
            intent: text_view(self.intent),
            text: text_view(self.text),
            action: text_view(self.action),
            response: text_view(self.response),
        }
    }
}

/// The texts of a message, by the strings in it.
pub open spec fn fields_in(strings: Map<Seq<char>, Seq<char>>) -> ReplyFieldsView {
    ReplyFieldsView {
        intent: at(strings, "/intent"@),
        text: at(strings, "/text"@),
        action: at(strings, "/action"@),
        response: at(strings, "/response"@),
    }
}

impl ReplyFieldsView {
    /// The action that the texts ask for; `None` where the intent is none of the known ones.
    /// What is missing is filled in: dictation of nothing, a new paragraph, a short answer.
    pub open spec fn asked(self) -> Option<ActionView> {
        let intent = or_default(self.intent, "dictate"@);
        if intent == "dictate"@ {
            Some(ActionView::Dictate { text: or_default(self.text, ""@) })
        } else if intent == "command"@ {
            Some(
                ActionView::Command {
                    action: match EditCommand::named(
                        or_default(self.action, "new_paragraph"@),
                    ) {
                        Some(command) => command,
                        None => EditCommand::NewParagraph,
                    },
                    text: self.text,
                },
            )
        } else if intent == "conversation"@ {
            Some(ActionView::Conversation { response: or_default(self.response, "I understand."@) })
        } else {
            None
        }
    }
}

/// A text, or a default where it is missing.
fn text_or(s: &Option<String>, default: &str) -> (r: String)
    ensures
        r@ == or_default(text_view(*s), default@),
{
    match s {
        Some(t) => t.clone(),
        None => default.to_string(),
    }
}

/// The action that the texts of a message ask for.
pub fn action_from_fields(fields: &ReplyFields) -> (r: Option<LlmAction>)
    ensures
        match r {
            Some(action) => fields@.asked() == Some(action@),
            None => fields@.asked() is None,
        },
{
    let intent: String = text_or(&fields.intent, "dictate");
    if same(intent.as_str(), "dictate") {
        Some(LlmAction::Dictate { text: text_or(&fields.text, "") })
    } else if same(intent.as_str(), "command") {
        let name: String = text_or(&fields.action, "new_paragraph");
        let action: EditCommand = match EditCommand::from_wire_name(name.as_str()) {
            Some(command) => command,
            None => EditCommand::NewParagraph,
        };
        let text: Option<String> = match &fields.text {
            Some(t) => Some(t.clone()),
            None => None,
        };
        Some(LlmAction::Command { action, text })
    } else if same(intent.as_str(), "conversation") {
        Some(LlmAction::Conversation { response: text_or(&fields.response, "I understand.") })
    } else {
        None
    }
}

/// The action that a message asks for, given the texts in it: `None` where it is no JSON
/// document.  A message that cannot be read is typed as it is.
pub open spec fn action_in(fields: Option<ReplyFieldsView>, content: Seq<char>) -> ActionView {
    match fields {
        Some(f) => match f.asked() {
            Some(action) => action,
            None => ActionView::Dictate { text: trimmed(content) },
        },
        None => ActionView::Dictate { text: trimmed(content) },
    }
}

/// The action that a message asks for, given the texts that were found in it.
pub fn action_or_dictation(fields: Option<ReplyFields>, content: &str) -> (r: LlmAction)
    ensures
        r@ == action_in(
            match fields {
                Some(f) => Some(f@),
                None => None,
            },
            content@,
        ),
{
    if let Some(f) = &fields {
        if let Some(action) = action_from_fields(f) {
            return action;
        }
    }
    LlmAction::Dictate { text: trim(content, CharClass::Whitespace).to_string() }
}

/// The texts in a message, by what is known of its strings.
pub open spec fn fields_of(document: Option<Map<Seq<char>, Seq<char>>>) -> Option<
    ReplyFieldsView,
> {
    match document {
        Some(strings) => Some(fields_in(strings)),
        None => None,
    }
}

/// The action that a message asks for, given what it decodes to as it stands, and the strings in
/// it.
pub open spec fn reply_action(
    direct: Option<ActionView>,
    document: Option<Map<Seq<char>, Seq<char>>>,
    content: Seq<char>,
) -> ActionView {
    match direct {
        Some(action) => action,
        None => action_in(fields_of(document), content),
    }
}

/// An optional action, taken by its contents.
pub open spec fn action_view(action: Option<LlmAction>) -> Option<ActionView> {
    match action {
        Some(a) => Some(a@),
        None => None,
    }
}

/// Parse the classifier's message into an action.
///
/// `direct` is what the message decodes to when it has exactly the shape of an action.  Handles
/// various other shapes and falls back gracefully: there is always an action.
pub fn parse_llm_response(content: &str, direct: Option<LlmAction>) -> (r: LlmAction)
    ensures
        r@ == reply_action(action_view(direct), json_document(content@), content@),
        r@ == match direct {
            Some(action) => action@,
            None => action_in(fields_of(json_document(content@)), content@),
        },
{
    if let Some(action) = direct {
        return action;
    }
    match parse_json(content) {
        Ok(value) => {
            let fields: ReplyFields = ReplyFields {
                intent: string_at(&value, "/intent"),
                text: string_at(&value, "/text"),
                action: string_at(&value, "/action"),
                response: string_at(&value, "/response"),
            };
            assert(fields@ =~= fields_in(json_document(content@)->Some_0));
            action_or_dictation(Some(fields), content)
        },
        Err(_) => action_or_dictation(None, content),
    }
}

/// When in doubt, the utterance is typed: a message without an intent, with an unknown one, or
/// one that is no JSON document at all, is dictation.
pub proof fn law_doubtful_replies_are_dictation(fields: Option<ReplyFieldsView>, content: Seq<char>)
    requires
        match fields {
            Some(f) => f.intent is None || (f.intent != Some("command"@) && f.intent != Some(
                "conversation"@,
            )),
            None => true,
        },
    ensures
        action_in(fields, content) is Dictate,
{
    reveal_strlit("dictate");
    reveal_strlit("command");
    reveal_strlit("conversation");
    assert("dictate"@[0] != "command"@[0]);
}

/// An action in the shape that the classifier is asked for is read back as it is: by the texts
/// of its intent, its action and its text.
pub proof fn law_actions_are_read_back(action: ActionView, content: Seq<char>)
    ensures
        action_in(Some(wire_fields(action)), content) == action,
{
    reveal_strlit("dictate");
    reveal_strlit("command");
    reveal_strlit("conversation");
    assert("dictate"@[0] != "command"@[0]);
    assert("dictate"@[0] != "conversation"@[0]);
    assert("command"@.len() != "conversation"@.len());
    match action {
        ActionView::Command { action, text } => {
            crate::events::law_command_names_are_distinct(action);
        },
        _ => {},
    }
}

/// The texts of a message that asks for an action.
pub open spec fn wire_fields(action: ActionView) -> ReplyFieldsView {
    match action {
        ActionView::Dictate { text } => ReplyFieldsView {
            intent: Some("dictate"@),
            text: Some(text),
            action: None,
            response: None,
        },
        ActionView::Command { action, text } => ReplyFieldsView {
            intent: Some("command"@),
            text,
            action: Some(action.wire_name()),
            response: None,
        },
        ActionView::Conversation { response } => ReplyFieldsView {
            intent: Some("conversation"@),
            text: None,
            action: None,
            response: Some(response),
        },
    }
}

/// Whether a text holds another.
pub open spec fn mentions(text: Seq<char>, part: Seq<char>) -> bool {
    exists|i: int|
        0 <= i <= text.len() - part.len() && #[trigger] text.subrange(i, i + part.len()) == part
}

/// A text holds what stands between two parts of it.
proof fn lemma_mentions(before: Seq<char>, part: Seq<char>, after: Seq<char>)
    ensures
        mentions(before + part + after, part),
{
    let i = before.len() as int;
    assert((before + part + after).subrange(i, i + part.len()) =~= part);
}

/// A text holds what one of its parts holds.
proof fn lemma_mentions_in(before: Seq<char>, text: Seq<char>, after: Seq<char>, part: Seq<char>)
    requires
        mentions(text, part),
    ensures
        mentions(before + text + after, part),
{
    let i = choose|i: int|
        0 <= i <= text.len() - part.len() && #[trigger] text.subrange(i, i + part.len()) == part;
    let k = before.len() + i;
    assert((before + text + after).subrange(k, k + part.len()) =~= part);
}

/// The name of a command, in quotes as it stands in the classifier's replies.
pub open spec fn quoted_name(command: EditCommand) -> Seq<char> {
    seq!['"'] + command.wire_name() + seq!['"']
}

proof fn lemma_line_names_its_action(command: EditCommand)
    ensures
        mentions(action_line(command), quoted_name(command)),
{
    reveal_strlit("   - \"");
    reveal_strlit("\" — ");
    let before = seq![' ', ' ', ' ', '-', ' '];
    let after = seq![' ', '—', ' '] + command.purpose() + "\n"@;
    assert("   - \""@ =~= before + seq!['"']);
    assert("\" — "@ =~= seq!['"'] + seq![' ', '—', ' ']);
    assert(action_line(command) =~= before + quoted_name(command) + after);
    lemma_mentions(before, quoted_name(command), after);
}

proof fn lemma_lines_name_their_actions(commands: Seq<EditCommand>, i: int)
    requires
        0 <= i < commands.len(),
    ensures
        mentions(action_lines(commands), quoted_name(commands[i])),
    decreases commands.len(),
{
    let front = commands.drop_last();
    let above = action_lines(front);
    let line = action_line(commands.last());
    let nothing = Seq::<char>::empty();
    if i == commands.len() - 1 {
        lemma_line_names_its_action(commands[i]);
        lemma_mentions_in(above, line, nothing, quoted_name(commands[i]));
        assert(above + line + nothing =~= action_lines(commands));
    } else {
        lemma_lines_name_their_actions(front, i);
        lemma_mentions_in(nothing, above, line, quoted_name(commands[i]));
        assert(nothing + above + line =~= action_lines(commands));
    }
}

/// The instructions are the same for every document but for its state, which stands in them as
/// it is, behind the words that announce it; and they name every action as it is spelled in the
/// replies.
pub proof fn law_the_prompt_names_every_action(document_context: Seq<char>, command: EditCommand)
    ensures
        system_prompt(document_context) == prompt_head() + document_context + prompt_tail(),
        "CURRENT DOCUMENT STATE:\n"@.is_suffix_of(prompt_head()),
        mentions(prompt_tail(), quoted_name(command)),
{
    let head = prompt_head();
    let state = PROMPT_STATE@;
    assert(head.subrange(head.len() - state.len(), head.len() as int) =~= state);
    crate::events::lemma_every_command(command);
    let i = choose|i: int|
        0 <= i < EditCommand::every().len() && EditCommand::every()[i] == command;
    lemma_lines_name_their_actions(EditCommand::every(), i);
    lemma_mentions_in(
        PROMPT_FORMAT@,
        action_lines(EditCommand::every()),
        PROMPT_RULES@,
        quoted_name(command),
    );
}

/// What a reply asks for, by its texts.  Dictation types the text, a command does what it is named
/// for and carries the text, conversation answers; what is missing is filled in, and a reply of
/// another kind is typed as it is, without the white space around it.
pub proof fn law_what_a_reply_asks_for(
    f: ReplyFieldsView,
    before: Seq<char>,
    content: Seq<char>,
    behind: Seq<char>,
)
    requires
        all_in(before, CharClass::Whitespace),
        all_in(behind, CharClass::Whitespace),
        content.len() > 0 ==> !is_whitespace(content[0]) && !is_whitespace(content.last()),
    ensures
        ({
            let whole = before + content + behind;
            let action = action_in(Some(f), whole);
            &&& action_in(None, whole) == (ActionView::Dictate { text: content })
            &&& f.intent is None || f.intent == Some("dictate"@) ==> action
                == (ActionView::Dictate {
                text: match f.text {
                    Some(t) => t,
                    None => Seq::empty(),
                },
            })
            &&& f.intent == Some("command"@) ==> {
                &&& action matches ActionView::Command { action: command, text }
                &&& text == f.text
                &&& f.action is None ==> command == EditCommand::NewParagraph
                &&& f.action matches Some(name) ==> Some(command) == match EditCommand::named(
                    name,
                ) {
                    Some(c) => Some(c),
                    None => Some(EditCommand::NewParagraph),
                }
            }
            &&& f.intent == Some("conversation"@) ==> action == (ActionView::Conversation {
                response: match f.response {
                    Some(t) => t,
                    None => "I understand."@,
                },
            })
            &&& f.intent is Some && f.intent != Some("dictate"@) && f.intent != Some("command"@)
                && f.intent != Some("conversation"@) ==> action == (ActionView::Dictate {
                text: content,
            })
        }),
{
    law_trimming_is_exact(before, content, behind, CharClass::Whitespace);
    reveal_strlit("");
    reveal_strlit("dictate");
    reveal_strlit("command");
    reveal_strlit("conversation");
    reveal_strlit("new_paragraph");
    assert(""@ =~= Seq::<char>::empty());
    assert("dictate"@[0] != "command"@[0]);
    assert("dictate"@[0] != "conversation"@[0]);
    assert("command"@.len() != "conversation"@.len());
    crate::events::law_command_names_are_distinct(EditCommand::NewParagraph);
}

/// A message that decodes as it stands is what it decodes to; else it goes by the strings in it.
pub proof fn law_messages_are_decoded(
    action: ActionView,
    document: Option<Map<Seq<char>, Seq<char>>>,
    content: Seq<char>,
)
    ensures
        reply_action(Some(action), document, content) == action,
        document is None ==> reply_action(None, document, content) == action_in(None, content),
        document matches Some(strings) ==> reply_action(None, document, content) == action_in(
            Some(
                ReplyFieldsView {
                    intent: at(strings, "/intent"@),
                    text: at(strings, "/text"@),
                    action: at(strings, "/action"@),
                    response: at(strings, "/response"@),
                },
            ),
            content,
        ),
{
}

/// The message in a reply of the API is the content of its first choice.
pub proof fn law_where_the_message_is(strings: Map<Seq<char>, Seq<char>>)
    ensures
        message_in(None) == Err::<Seq<char>, LlmErrorView>(LlmErrorView::NotJson),
        strings.dom().contains("/choices/0/message/content"@) ==> message_in(Some(strings))
            == Ok::<Seq<char>, LlmErrorView>(strings["/choices/0/message/content"@]),
        !strings.dom().contains("/choices/0/message/content"@) ==> message_in(Some(strings))
            == Err::<Seq<char>, LlmErrorView>(LlmErrorView::MissingContent),
{
}

/// An utterance is sent to the configured model at the configured address, with the configured key:
/// as the message of the user, behind the instructions with the state of the document.
pub proof fn law_what_is_sent_to_the_language_model(
    config: ConfigView,
    address: Seq<char>,
    slashes: Seq<char>,
    transcript: Seq<char>,
    context: Seq<char>,
)
    requires
        config.llm_base_url == address + slashes,
        all_in(slashes, CharClass::Slash),
        address.len() > 0 ==> address.last() != '/',
    ensures
        ({
            let request = LlmClientView::configured(config).request(transcript, context);
            &&& request.url == address + "/chat/completions"@
            &&& request.headers == seq![
                ("Authorization"@, "Bearer "@ + config.llm_api_key),
                ("Content-Type"@, "application/json"@),
            ]
            &&& request.body == "{\"messages\":[{\"content\":"@ + quoted(
                prompt_head() + context + prompt_tail(),
            ) + ",\"role\":\"system\"},{\"content\":"@ + quoted(transcript)
                + ",\"role\":\"user\"}],\"model\":"@ + quoted(config.llm_model)
                + ",\"response_format\":{\"type\":\"json_object\"},\"temperature\":0.1}"@
        }),
{
    law_trimming_the_end_is_exact(address, slashes, CharClass::Slash);
}

/// The instructions are those of the introduction, the format, the actions one line each, and the
/// rules.
pub proof fn law_what_the_prompt_holds(commands: Seq<EditCommand>, command: EditCommand)
    ensures
        prompt_head() == PROMPT_INTRODUCTION@ + "CURRENT DOCUMENT STATE:\n"@,
        prompt_tail() == PROMPT_FORMAT@ + action_lines(EditCommand::every()) + PROMPT_RULES@,
        action_lines(Seq::empty()) == Seq::<char>::empty(),
        action_lines(commands.push(command)) == action_lines(commands) + "   - \""@
            + command.wire_name() + "\" — "@ + command.purpose() + "\n"@,
{
    let more = commands.push(command);
    assert(more.drop_last() =~= commands);
    assert(action_lines(more) =~= action_lines(commands) + "   - \""@ + command.wire_name()
        + "\" — "@ + command.purpose() + "\n"@);
}

/// A reply with an error status is an error with its status and its words; another is read by the
/// strings in it.
pub proof fn law_error_replies_are_errors(
    status: Seq<char>,
    body: Seq<char>,
    document: Option<Map<Seq<char>, Seq<char>>>,
)
    ensures
        read_from(false, status, body, document) == Err::<Seq<char>, LlmErrorView>(
            LlmErrorView::Api { status, body },
        ),
        read_from(true, status, body, document) == message_in(document),
        (LlmErrorView::Api { status, body }).words() == "LLM API returned error "@ + status + ": "@
            + body,
        LlmErrorView::NotJson.words() == "Failed to parse LLM response as JSON"@,
        LlmErrorView::MissingContent.words() == "LLM response missing choices[0].message.content"@,
{
}

} // verus!
