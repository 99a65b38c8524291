use typist::audio::AudioSource;
use typist::cli::{
    clean_path, invalid_choice_message, read_menu_choice, read_menu_path, scan_args, ArgError,
    ArgStep, MenuChoice,
};

fn scan(args: &[&str]) -> ArgStep {
    let args: Vec<String> = args.iter().map(|a| a.to_string()).collect();
    scan_args(&args, 0, None, None)
}

#[test]
fn sources_are_named_by_flags() {
    for flag in ["--microphone", "--computer-audio", "--computer"] {
        match scan(&[flag]) {
            ArgStep::Done { source, output_file: None } => {
                assert_eq!(source, AudioSource::Microphone)
            }
            _ => panic!("expected the microphone"),
        }
    }
    match scan(&["--microphone", "--system-audio"]) {
        ArgStep::Done { source, output_file: None } => assert_eq!(source, AudioSource::SystemAudio),
        _ => panic!("expected system audio"),
    }
}

#[test]
fn output_files_are_named_by_flags() {
    match scan(&["--output-file", "a.md", "--microphone", "--output-file", "b.md"]) {
        ArgStep::Done { source, output_file } => {
            assert_eq!(source, AudioSource::Microphone);
            assert_eq!(output_file, Some("b.md".to_string()));
        }
        _ => panic!("expected the microphone"),
    }
    match scan(&["--output-file", "--help"]) {
        ArgStep::Ask { output_file } => assert_eq!(output_file, Some("--help".to_string())),
        _ => panic!("expected a question"),
    }
}

#[test]
fn without_a_source_the_user_is_asked() {
    assert!(matches!(scan(&[]), ArgStep::Ask { output_file: None }));
}

#[test]
fn audio_files_are_checked_on_the_way() {
    for flag in ["--audio-file", "--file"] {
        let args: Vec<String> =
            ["--output-file", "o", flag, "a.wav", "--output-file", "p"].iter().map(|a| a.to_string()).collect();
        match scan_args(&args, 0, None, None) {
            ArgStep::CheckFile { path, next, output_file } => {
                assert_eq!(path, "a.wav");
                assert_eq!(next, 4);
                assert_eq!(output_file, Some("o".to_string()));
                let source = AudioSource::File(path);
                match scan_args(&args, next, Some(source), output_file) {
                    ArgStep::Done { source, output_file } => {
                        assert_eq!(source, AudioSource::File("a.wav".to_string()));
                        assert_eq!(output_file, Some("p".to_string()));
                    }
                    _ => panic!("expected a file"),
                }
            }
            _ => panic!("expected a check"),
        }
    }
}

#[test]
fn help_is_asked_for() {
    assert!(matches!(scan(&["--help"]), ArgStep::Help));
    assert!(matches!(scan(&["--microphone", "-h", "junk"]), ArgStep::Help));
}

#[test]
fn faulty_command_lines() {
    let message = |args: &[&str]| match scan(args) {
        ArgStep::Fail(e) => e.message(),
        _ => panic!("expected an error"),
    };
    assert_eq!(message(&["--file"]), "--audio-file requires a path to a WAV or MP3 file");
    assert_eq!(message(&["--microphone", "--output-file"]), "--output-file requires a path");
    assert_eq!(message(&["junk"]), "Unknown argument 'junk'. Use --help for available options.");
    assert_eq!(
        ArgError::Unknown("-x".to_string()).message(),
        "Unknown argument '-x'. Use --help for available options."
    );
}

#[test]
fn menu_choices() {
    for line in ["", "\n", "2\n", " 2 "] {
        assert!(matches!(read_menu_choice(line), MenuChoice::Source(AudioSource::Microphone)));
    }
    assert!(matches!(read_menu_choice("3\r\n"), MenuChoice::Source(AudioSource::SystemAudio)));
    assert!(matches!(read_menu_choice("1\n"), MenuChoice::AskPath));
    match read_menu_choice(" four ") {
        MenuChoice::Invalid(other) => {
            assert_eq!(other, "four");
            assert_eq!(
                invalid_choice_message(&other),
                "Invalid audio source 'four'. Choose 1, 2, or 3."
            );
        }
        _ => panic!("expected an invalid choice"),
    }
}

#[test]
fn entered_paths_are_cleaned() {
    assert_eq!(clean_path(" \"C:\\a b.wav\" \n"), "C:\\a b.wav");
    assert_eq!(clean_path("\" x \""), " x ");
    assert_eq!(read_menu_path(" a.mp3\n"), Some("a.mp3".to_string()));
    assert_eq!(read_menu_path(" \"\" \n"), None);
    assert_eq!(read_menu_path(""), None);
}
