//! The command line and the menu that is shown without one.
use crate::audio::{AudioSource, SourceView};
use crate::text::{
    all_in, concat3, is_whitespace, same, text_view, texts, trim, trim_of, trimmed, CharClass,
};
use crate::text_laws::law_trimming_is_exact;
use vstd::prelude::*;

verus! {

/// What is wrong with a command line.
#[derive(Debug, PartialEq, Eq)]
pub enum ArgError {
    /// The path of the audio file is missing.
    MissingAudioPath,
    /// The path of the output file is missing.
    MissingOutputPath,
    /// There is no such argument.
    Unknown(String),
}

/// An error with its text taken by its characters.
pub enum ArgErrorView {
    MissingAudioPath,
    MissingOutputPath,
    Unknown(Seq<char>),
}

impl View for ArgError {
    type V = ArgErrorView;

    open spec fn view(&self) -> ArgErrorView {
        match *self {
            ArgError::MissingAudioPath => ArgErrorView::MissingAudioPath,
            ArgError::MissingOutputPath => ArgErrorView::MissingOutputPath,
            ArgError::Unknown(arg) => ArgErrorView::Unknown(arg@),
        }
    }
}

impl ArgErrorView {
    /// The words for an error.
    pub open spec fn words(self) -> Seq<char> {
        match self {
            ArgErrorView::MissingAudioPath =>
                "--audio-file requires a path to a WAV or MP3 file"@,
            ArgErrorView::MissingOutputPath => "--output-file requires a path"@,
            ArgErrorView::Unknown(arg) => "Unknown argument '"@ + arg
                + "'. Use --help for available options."@,
        }
    }
}

impl ArgError {
    /// The words for the error.
    pub fn message(&self) -> (r: String)
        ensures
            r@ == self@.words(),
    {
        match self {
            ArgError::MissingAudioPath =>
                "--audio-file requires a path to a WAV or MP3 file".to_string(),
            ArgError::MissingOutputPath => "--output-file requires a path".to_string(),
            ArgError::Unknown(arg) => concat3(
                "Unknown argument '",
                arg.as_str(),
                "'. Use --help for available options.",
            ),
        }
    }
}

/// How far a command line has been read, and what to do next.
#[derive(Debug)]
pub enum ArgStep {
    /// An audio file was named.  It has to be checked before the argument `next` is read.
    CheckFile { path: String, next: usize, output_file: Option<String> },
    /// The command line is complete.
    Done { source: AudioSource, output_file: Option<String> },
    /// The command line names no source; the user has to be asked.
    Ask { output_file: Option<String> },
    /// The usage has to be shown.
    Help,
    /// The command line is wrong.
    Fail(ArgError),
}

/// A step with its texts taken by their characters.
pub enum ArgStepView {
    CheckFile { path: Seq<char>, next: int, output_file: Option<Seq<char>> },
    Done { source: SourceView, output_file: Option<Seq<char>> },
    Ask { output_file: Option<Seq<char>> },
    Help,
    Fail(ArgErrorView),
}

impl View for ArgStep {
    type V = ArgStepView;

    open spec fn view(&self) -> ArgStepView {
        match *self {
            ArgStep::CheckFile { path, next, output_file } => ArgStepView::CheckFile {
                path: path@,
                next: next as int,
                output_file: text_view(output_file),
            },
            ArgStep::Done { source, output_file } => ArgStepView::Done {
                source: source@,
                output_file: text_view(output_file),
            },
            ArgStep::Ask { output_file } => ArgStepView::Ask { output_file: text_view(output_file) },
            ArgStep::Help => ArgStepView::Help,
            ArgStep::Fail(e) => ArgStepView::Fail(e@),
        }
    }
}

/// An optional source, taken by its contents.
pub open spec fn source_view(source: Option<AudioSource>) -> Option<SourceView> {
    match source {
        Some(s) => Some(s@),
        None => None,
    }
}

/// Whether an argument chooses the microphone.
pub open spec fn is_microphone_flag(arg: Seq<char>) -> bool {
    arg == "--microphone"@ || arg == "--computer-audio"@ || arg == "--computer"@
}

/// Whether an argument announces an audio file.
pub open spec fn is_file_flag(arg: Seq<char>) -> bool {
    arg == "--audio-file"@ || arg == "--file"@
}

/// Reading a command line on from an argument, with the source and the output file that the
/// arguments before it gave.  The last source that is named counts, and so does the last
/// output file.
pub open spec fn scan(
    args: Seq<Seq<char>>,
    i: int,
    source: Option<SourceView>,
    output_file: Option<Seq<char>>,
) -> ArgStepView
    decreases args.len() - i,
{
    if i < 0 || i >= args.len() {
        match source {
            Some(s) => ArgStepView::Done { source: s, output_file },
            None => ArgStepView::Ask { output_file },
        }
    } else if is_microphone_flag(args[i]) {
        scan(args, i + 1, Some(SourceView::Microphone), output_file)
    } else if args[i] == "--system-audio"@ {
        scan(args, i + 1, Some(SourceView::SystemAudio), output_file)
    } else if is_file_flag(args[i]) {
        if i + 1 < args.len() {
            ArgStepView::CheckFile { path: args[i + 1], next: i + 2, output_file }
        } else {
            ArgStepView::Fail(ArgErrorView::MissingAudioPath)
        }
    } else if args[i] == "--output-file"@ {
        if i + 1 < args.len() {
            scan(args, i + 2, source, Some(args[i + 1]))
        } else {
            ArgStepView::Fail(ArgErrorView::MissingOutputPath)
        }
    } else if args[i] == "--help"@ || args[i] == "-h"@ {
        ArgStepView::Help
    } else {
        ArgStepView::Fail(ArgErrorView::Unknown(args[i]))
    }
}

/// Reads a command line on from the argument `from`, with the source and the output file that
/// the arguments before it gave.
pub fn scan_args(
    args: &Vec<String>,
    from: usize,
    source: Option<AudioSource>,
    output_file: Option<String>,
) -> (r: ArgStep)
    ensures
        r@ == scan(texts(args@), from as int, source_view(source), text_view(output_file)),
{
    let ghost all = texts(args@);
    let ghost start = scan(all, from as int, source_view(source), text_view(output_file));
    let mut i: usize = from;
    let mut chosen: Option<AudioSource> = source;
    let mut target: Option<String> = output_file;
    while i < args.len()
        invariant
            all == texts(args@),
            start == scan(all, from as int, source_view(source), text_view(output_file)),
            start == scan(all, i as int, source_view(chosen), text_view(target)),
        decreases args@.len() - i,
    {
        let arg: &str = args[i].as_str();
        assert(arg@ == all[i as int]);
        if same(arg, "--microphone") || same(arg, "--computer-audio") || same(arg, "--computer") {
            chosen = Some(AudioSource::Microphone);
            i = i + 1;
        } else if same(arg, "--system-audio") {
            chosen = Some(AudioSource::SystemAudio);
            i = i + 1;
        } else if same(arg, "--audio-file") || same(arg, "--file") {
            if args.len() - i < 2 {
                return ArgStep::Fail(ArgError::MissingAudioPath);
            }
            assert(all[i + 1] == args@[i + 1]@);
            let next: usize = if args.len() - i > 2 {
                i + 2
            } else {
                args.len()
            };
            return ArgStep::CheckFile { path: args[i + 1].clone(), next, output_file: target };
        } else if same(arg, "--output-file") {
            if args.len() - i < 2 {
                return ArgStep::Fail(ArgError::MissingOutputPath);
            }
            assert(all[i + 1] == args@[i + 1]@);
            target = Some(args[i + 1].clone());
            i = if args.len() - i > 2 {
                i + 2
            } else {
                args.len()
            };
        } else if same(arg, "--help") || same(arg, "-h") {
            return ArgStep::Help;
        } else {
            return ArgStep::Fail(ArgError::Unknown(arg.to_string()));
        }
    }
    match chosen {
        Some(s) => ArgStep::Done { source: s, output_file: target },
        None => ArgStep::Ask { output_file: target },
    }
}

/// What the answer to the menu asks for.
#[derive(Debug)]
pub enum MenuChoice {
    /// A source.
    Source(AudioSource),
    /// A file, whose path has to be asked for.
    AskPath,
    /// Nothing that the menu offers.
    Invalid(String),
}

/// An answer with its texts taken by their characters.
pub enum MenuChoiceView {
    Source(SourceView),
    AskPath,
    Invalid(Seq<char>),
}

impl View for MenuChoice {
    type V = MenuChoiceView;

    open spec fn view(&self) -> MenuChoiceView {
        match *self {
            MenuChoice::Source(source) => MenuChoiceView::Source(source@),
            MenuChoice::AskPath => MenuChoiceView::AskPath,
            MenuChoice::Invalid(other) => MenuChoiceView::Invalid(other@),
        }
    }
}

/// What an answer to the menu asks for.
pub open spec fn menu_choice(line: Seq<char>) -> MenuChoiceView {
    let t = trimmed(line);
    if t.len() == 0 || t == "2"@ {
        MenuChoiceView::Source(SourceView::Microphone)
    } else if t == "3"@ {
        MenuChoiceView::Source(SourceView::SystemAudio)
    } else if t == "1"@ {
        MenuChoiceView::AskPath
    } else {
        MenuChoiceView::Invalid(t)
    }
}

/// The error message for an answer that the menu does not offer.
pub fn invalid_choice_message(choice: &str) -> (r: String)
    ensures
        r@ == "Invalid audio source '"@ + choice@ + "'. Choose 1, 2, or 3."@,
{
    concat3("Invalid audio source '", choice, "'. Choose 1, 2, or 3.")
}

/// Reads the answer to the menu; the microphone is the default.
pub fn read_menu_choice(line: &str) -> (r: MenuChoice)
    ensures
        r@ == menu_choice(line@),
        ({
            let t = trimmed(line@);
            if t.len() == 0 || t == "2"@ {
                r == MenuChoice::Source(AudioSource::Microphone)
            } else if t == "3"@ {
                r == MenuChoice::Source(AudioSource::SystemAudio)
            } else if t == "1"@ {
                r == MenuChoice::AskPath
            } else {
                r matches MenuChoice::Invalid(other) && other@ == t
            }
        }),
{
    let t: &str = trim(line, CharClass::Whitespace);
    if t.is_empty() || same(t, "2") {
        MenuChoice::Source(AudioSource::Microphone)
    } else if same(t, "3") {
        MenuChoice::Source(AudioSource::SystemAudio)
    } else if same(t, "1") {
        MenuChoice::AskPath
    } else {
        MenuChoice::Invalid(t.to_string())
    }
}

/// A path as it was entered, without white space and quotes around it.
pub open spec fn entered_path(line: Seq<char>) -> Seq<char> {
    trim_of(trimmed(line), CharClass::Quote)
}

/// Cleans a path that was entered.
pub fn clean_path(line: &str) -> (r: String)
    ensures
        r@ == entered_path(line@),
{
    trim(trim(line, CharClass::Whitespace), CharClass::Quote).to_string()
}

/// Reads the path of an audio file; `None` where none was entered.
pub fn read_menu_path(line: &str) -> (r: Option<String>)
    ensures
        text_view(r) == if entered_path(line@).len() == 0 {
            None
        } else {
            Some(entered_path(line@))
        },
{
    let path: String = clean_path(line);
    if path.as_str().is_empty() {
        None
    } else {
        Some(path)
    }
}

/// Reading stops at an audio file behind the place where it began, so a command line is read in
/// finitely many steps.
pub proof fn law_reading_makes_progress(
    args: Seq<Seq<char>>,
    i: int,
    source: Option<SourceView>,
    output_file: Option<Seq<char>>,
)
    requires
        0 <= i,
    ensures
        scan(args, i, source, output_file) matches ArgStepView::CheckFile { next, .. } ==> i < next
            <= args.len(),
    decreases args.len() - i,
{
    if i < args.len() {
        if is_microphone_flag(args[i]) {
            law_reading_makes_progress(args, i + 1, Some(SourceView::Microphone), output_file);
        } else if args[i] == "--system-audio"@ {
            law_reading_makes_progress(args, i + 1, Some(SourceView::SystemAudio), output_file);
        } else if args[i] == "--output-file"@ && i + 1 < args.len() {
            law_reading_makes_progress(args, i + 2, source, Some(args[i + 1]));
        }
    }
}

/// Once a source is known, the user is not asked for one.
pub proof fn law_a_named_source_is_not_asked_for(
    args: Seq<Seq<char>>,
    i: int,
    source: SourceView,
    output_file: Option<Seq<char>>,
)
    requires
        0 <= i,
    ensures
        !(scan(args, i, Some(source), output_file) is Ask),
    decreases args.len() - i,
{
    if i < args.len() {
        if is_microphone_flag(args[i]) {
            law_a_named_source_is_not_asked_for(args, i + 1, SourceView::Microphone, output_file);
        } else if args[i] == "--system-audio"@ {
            law_a_named_source_is_not_asked_for(args, i + 1, SourceView::SystemAudio, output_file);
        } else if args[i] == "--output-file"@ && i + 1 < args.len() {
            law_a_named_source_is_not_asked_for(args, i + 2, source, Some(args[i + 1]));
        }
    }
}

/// A command line is read argument by argument.  Each argument does its own: it names a source,
/// announces a file or the output file, asks for help, or is none that there is; and at the end the
/// source is used that was named last, and asked for where none was.
pub proof fn law_each_argument_does_its_own(
    args: Seq<Seq<char>>,
    i: int,
    source: Option<SourceView>,
    output_file: Option<Seq<char>>,
)
    requires
        0 <= i,
    ensures
        i >= args.len() ==> scan(args, i, source, output_file) == match source {
            Some(s) => ArgStepView::Done { source: s, output_file },
            None => ArgStepView::Ask { output_file },
        },
        i < args.len() ==> {
            let arg = args[i];
            let step = scan(args, i, source, output_file);
            &&& arg == "--microphone"@ || arg == "--computer-audio"@ || arg == "--computer"@ ==> step
                == scan(args, i + 1, Some(SourceView::Microphone), output_file)
            &&& arg == "--system-audio"@ ==> step == scan(
                args,
                i + 1,
                Some(SourceView::SystemAudio),
                output_file,
            )
            &&& arg == "--audio-file"@ || arg == "--file"@ ==> step == if i + 1 < args.len() {
                ArgStepView::CheckFile { path: args[i + 1], next: i + 2, output_file }
            } else {
                ArgStepView::Fail(ArgErrorView::MissingAudioPath)
            }
            &&& arg == "--output-file"@ && i + 1 < args.len() ==> step == scan(
                args,
                i + 2,
                source,
                Some(args[i + 1]),
            )
            &&& arg == "--output-file"@ && i + 1 == args.len() ==> step == ArgStepView::Fail(
                ArgErrorView::MissingOutputPath,
            )
            &&& arg == "--help"@ || arg == "-h"@ ==> step == ArgStepView::Help
            &&& arg != "--microphone"@ && arg != "--computer-audio"@ && arg != "--computer"@ && arg
                != "--system-audio"@ && arg != "--audio-file"@ && arg != "--file"@ && arg
                != "--output-file"@ && arg != "--help"@ && arg != "-h"@ ==> step
                == ArgStepView::Fail(ArgErrorView::Unknown(arg))
        },
{
    reveal_strlit("--microphone");
    reveal_strlit("--computer-audio");
    reveal_strlit("--computer");
    reveal_strlit("--system-audio");
    reveal_strlit("--audio-file");
    reveal_strlit("--file");
    reveal_strlit("--output-file");
    reveal_strlit("--help");
    reveal_strlit("-h");
    assert("--microphone"@.len() == 12);
    assert("--computer-audio"@.len() == 16);
    assert("--computer"@.len() == 10);
    assert("--system-audio"@.len() == 14);
    assert("--audio-file"@.len() == 12);
    assert("--file"@.len() == 6);
    assert("--output-file"@.len() == 13);
    assert("--help"@.len() == 6);
    assert("-h"@.len() == 2);
    assert("--microphone"@[2] != "--audio-file"@[2]);
    assert("--file"@[2] != "--help"@[2]);
}

/// The answers to the menu: the microphone is the second and the default, system audio the third,
/// a file the first, and every other answer is given back.
pub proof fn law_the_answers_to_the_menu(before: Seq<char>, answer: Seq<char>, behind: Seq<char>)
    requires
        all_in(before, CharClass::Whitespace),
        all_in(behind, CharClass::Whitespace),
        answer.len() > 0 ==> !is_whitespace(answer[0]) && !is_whitespace(answer.last()),
    ensures
        menu_choice(before + answer + behind) == (if answer.len() == 0 || answer == seq!['2'] {
            MenuChoiceView::Source(SourceView::Microphone)
        } else if answer == seq!['3'] {
            MenuChoiceView::Source(SourceView::SystemAudio)
        } else if answer == seq!['1'] {
            MenuChoiceView::AskPath
        } else {
            MenuChoiceView::Invalid(answer)
        }),
{
    law_trimming_is_exact(before, answer, behind, CharClass::Whitespace);
    reveal_strlit("1");
    reveal_strlit("2");
    reveal_strlit("3");
    assert("1"@ =~= seq!['1']);
    assert("2"@ =~= seq!['2']);
    assert("3"@ =~= seq!['3']);
}

/// A path is taken as it was entered, without the white space around it and the quotes within
/// that.
pub proof fn law_paths_are_taken_as_entered(
    before: Seq<char>,
    opening: Seq<char>,
    path: Seq<char>,
    closing: Seq<char>,
    behind: Seq<char>,
)
    requires
        all_in(before, CharClass::Whitespace),
        all_in(behind, CharClass::Whitespace),
        all_in(opening, CharClass::Quote),
        all_in(closing, CharClass::Quote),
        path.len() > 0 ==> path[0] != '"' && path.last() != '"',
        opening.len() == 0 && path.len() > 0 ==> !is_whitespace(path[0]),
        closing.len() == 0 && path.len() > 0 ==> !is_whitespace(path.last()),
    ensures
        entered_path(before + (opening + path + closing) + behind) == path,
{
    let quoted = opening + path + closing;
    if quoted.len() > 0 {
        if opening.len() > 0 {
            assert(CharClass::Quote.has(opening[0]));
            assert(quoted[0] == opening[0]);
        } else if path.len() > 0 {
            assert(quoted[0] == path[0]);
        } else {
            assert(CharClass::Quote.has(closing[0]));
            assert(quoted[0] == closing[0]);
        }
        if closing.len() > 0 {
            assert(CharClass::Quote.has(closing[closing.len() - 1]));
            assert(quoted.last() == closing.last());
        } else if path.len() > 0 {
            assert(quoted.last() == path.last());
        } else {
            assert(CharClass::Quote.has(opening[opening.len() - 1]));
            assert(quoted.last() == opening.last());
        }
    }
    law_trimming_is_exact(before, quoted, behind, CharClass::Whitespace);
    law_trimming_is_exact(opening, path, closing, CharClass::Quote);
}

/// What is wrong with a command line is said in words.
pub proof fn law_what_is_said_of_arguments(arg: Seq<char>)
    ensures
        ArgErrorView::MissingAudioPath.words()
            == "--audio-file requires a path to a WAV or MP3 file"@,
        ArgErrorView::MissingOutputPath.words() == "--output-file requires a path"@,
        ArgErrorView::Unknown(arg).words() == "Unknown argument '"@ + arg
            + "'. Use --help for available options."@,
{
}

} // verus!
