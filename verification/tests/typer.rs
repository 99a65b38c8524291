use typist::typer::{Typer, TypeOutStep};

fn show(steps: &[TypeOutStep]) -> Vec<String> {
    steps
        .iter()
        .map(|s| match s {
            TypeOutStep::SetClipboard(t) => format!("set {}", t),
            TypeOutStep::Wait(ms) => format!("wait {}", ms),
            TypeOutStep::PressControl => "press".to_string(),
            TypeOutStep::ClickKey(c) => format!("click {}", c),
            TypeOutStep::ReleaseControl => "release".to_string(),
            TypeOutStep::RestoreClipboard(t) => format!("restore {}", t),
        })
        .collect()
}

#[test]
fn typing_out_pastes_and_restores() {
    let typer = Typer::new(12);
    assert_eq!(typer.typing_speed, 12);
    assert_eq!(
        show(&typer.type_out("中文 text", Some("before".to_string()))),
        vec![
            "set 中文 text",
            "wait 50",
            "press",
            "click v",
            "release",
            "wait 100",
            "restore before"
        ]
    );
}

#[test]
fn an_unreadable_clipboard_is_not_restored() {
    assert_eq!(
        show(&Typer::new(0).type_out("t", None)),
        vec!["set t", "wait 50", "press", "click v", "release", "wait 100"]
    );
}
