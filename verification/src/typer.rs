//! Typing text into the focused window, by way of the clipboard.
use crate::text::text_view;
use vstd::prelude::*;

verus! {

/// How long the clipboard is given to settle, in milliseconds.
pub const CLIPBOARD_DELAY_MS: u64 = 50;

/// How long the focused window is given to paste, in milliseconds.
pub const PASTE_DELAY_MS: u64 = 100;

/// Handles text output via keyboard simulation and clipboard.
///
/// Implements the "clipboard paste" pattern: copy the text to the clipboard, then simulate
/// Ctrl+V to paste it into the focused window.  This handles all characters correctly.
#[derive(Debug)]
pub struct Typer {
    /// Characters per second for simulated typing (0 = instant paste).
    pub typing_speed: u32,
}

/// One step of typing a text out.
#[derive(Debug)]
pub enum TypeOutStep {
    /// Put the text on the clipboard.
    SetClipboard(String),
    /// Wait, for a number of milliseconds.
    Wait(u64),
    /// Press the control key and hold it.
    PressControl,
    /// Press and release a character key.
    ClickKey(char),
    /// Release the control key.
    ReleaseControl,
    /// Put back what was on the clipboard before; it does not matter whether that works.
    RestoreClipboard(String),
}

/// A step with its text taken by its characters.
pub enum StepView {
    SetClipboard(Seq<char>),
    Wait(u64),
    PressControl,
    ClickKey(char),
    ReleaseControl,
    RestoreClipboard(Seq<char>),
}

impl View for TypeOutStep {
    type V = StepView;

    open spec fn view(&self) -> StepView {
        match *self {
            TypeOutStep::SetClipboard(text) => StepView::SetClipboard(text@),
            TypeOutStep::Wait(ms) => StepView::Wait(ms),
            TypeOutStep::PressControl => StepView::PressControl,
            TypeOutStep::ClickKey(c) => StepView::ClickKey(c),
            TypeOutStep::ReleaseControl => StepView::ReleaseControl,
            TypeOutStep::RestoreClipboard(text) => StepView::RestoreClipboard(text@),
        }
    }
}

/// The steps that type a text out, given what was on the clipboard before.
pub open spec fn type_out_steps(text: Seq<char>, original: Option<Seq<char>>) -> Seq<StepView> {
    let paste = seq![
        StepView::SetClipboard(text),
        StepView::Wait(CLIPBOARD_DELAY_MS),
        StepView::PressControl,
        StepView::ClickKey('v'),
        StepView::ReleaseControl,
        StepView::Wait(PASTE_DELAY_MS),
    ];
    match original {
        Some(before) => paste.push(StepView::RestoreClipboard(before)),
        None => paste,
    }
}

impl Typer {
    /// Create a new Typer instance.
    pub fn new(typing_speed: u32) -> (r: Typer)
        ensures
            r.typing_speed == typing_speed,
    {
        Typer { typing_speed }
    }

    /// The steps that type a text out into the focused window, given what is on the clipboard.
    ///
    /// 1. Copies the text to the clipboard
    /// 2. Simulates Ctrl+V
    /// 3. Restores the original clipboard content
    pub fn type_out(&self, text: &str, original: Option<String>) -> (r: Vec<TypeOutStep>)
        ensures
            r@.map_values(|s: TypeOutStep| s@) == type_out_steps(text@, text_view(original)),
    {
        let mut r: Vec<TypeOutStep> = Vec::new();
        r.push(TypeOutStep::SetClipboard(text.to_string()));
        r.push(TypeOutStep::Wait(CLIPBOARD_DELAY_MS));
        r.push(TypeOutStep::PressControl);
        r.push(TypeOutStep::ClickKey('v'));
        r.push(TypeOutStep::ReleaseControl);
        r.push(TypeOutStep::Wait(PASTE_DELAY_MS));
        if let Some(before) = original {
            r.push(TypeOutStep::RestoreClipboard(before));
        }
        assert(r@.map_values(|s: TypeOutStep| s@) =~= type_out_steps(text@, text_view(original)));
        r
    }
}

/// What is on the clipboard after a row of steps.
pub open spec fn clipboard_after(steps: Seq<StepView>, before: Option<Seq<char>>) -> Option<
    Seq<char>,
>
    decreases steps.len(),
{
    if steps.len() == 0 {
        before
    } else {
        match steps.last() {
            StepView::SetClipboard(text) => Some(text),
            StepView::RestoreClipboard(text) => Some(text),
            _ => clipboard_after(steps.drop_last(), before),
        }
    }
}

/// Whether the control key is down after a row of steps.
pub open spec fn control_after(steps: Seq<StepView>) -> bool
    decreases steps.len(),
{
    if steps.len() == 0 {
        false
    } else {
        match steps.last() {
            StepView::PressControl => true,
            StepView::ReleaseControl => false,
            _ => control_after(steps.drop_last()),
        }
    }
}

/// When the paste key is pressed, the control key is down and the text is on the clipboard.
pub proof fn law_the_text_is_what_is_pasted(text: Seq<char>, original: Option<Seq<char>>)
    ensures
        ({
            let steps = type_out_steps(text, original);
            &&& steps[3] == StepView::ClickKey('v')
            &&& clipboard_after(steps.take(3), original) == Some(text)
            &&& control_after(steps.take(3))
        }),
{
    let steps = type_out_steps(text, original);
    let s3 = steps.take(3);
    let s2 = s3.drop_last();
    let s1 = s2.drop_last();
    assert(s3.last() == StepView::PressControl);
    assert(s2.last() == StepView::Wait(CLIPBOARD_DELAY_MS));
    assert(s1.last() == StepView::SetClipboard(text));
    reveal_with_fuel(clipboard_after, 4);
}

/// Typing out leaves the clipboard as it was, where there was a text on it, and the control key
/// up.
pub proof fn law_the_clipboard_is_restored(text: Seq<char>, original: Option<Seq<char>>)
    ensures
        original is Some ==> clipboard_after(type_out_steps(text, original), original) == original,
        !control_after(type_out_steps(text, original)),
{
    let steps = type_out_steps(text, original);
    reveal_with_fuel(control_after, 4);
    if original is Some {
        assert(steps.drop_last().last() == StepView::Wait(PASTE_DELAY_MS));
        assert(steps.drop_last().drop_last().last() == StepView::ReleaseControl);
    } else {
        assert(steps.last() == StepView::Wait(PASTE_DELAY_MS));
        assert(steps.drop_last().last() == StepView::ReleaseControl);
    }
}

/// Typing a text out pastes it once: the text is put on the clipboard first, the paste key is
/// clicked once, with a wait before and behind it, and what was on the clipboard comes back last.
pub proof fn law_a_text_is_pasted_once(text: Seq<char>, before: Seq<char>)
    ensures
        type_out_steps(text, None) == seq![
            StepView::SetClipboard(text),
            StepView::Wait(50),
            StepView::PressControl,
            StepView::ClickKey('v'),
            StepView::ReleaseControl,
            StepView::Wait(100),
        ],
        type_out_steps(text, Some(before)) == type_out_steps(text, None) + seq![
            StepView::RestoreClipboard(before),
        ],
{
    assert(type_out_steps(text, Some(before)) =~= type_out_steps(text, None) + seq![
        StepView::RestoreClipboard(before),
    ]);
}

} // verus!
