use dockrtui::key::{KeyCode, KeyEvent};
use dockrtui::pull::{
    compose_done, compose_heading, compose_pull_args, compose_start_failure, format_pull_info, line_style,
    PullEvent, PullInfo, PullPopup, PullTask,
};
use dockrtui::theme::Theme;

fn info(id: Option<&str>, status: Option<&str>, progress: Option<&str>, error: Option<&str>) -> PullInfo {
    PullInfo {
        id: id.map(String::from),
        status: status.map(String::from),
        progress: progress.map(String::from),
        error: error.map(String::from),
    }
}

fn line(key: Option<&str>, text: &str) -> PullEvent {
    PullEvent::Line { key: key.map(String::from), text: text.to_string() }
}

#[test]
fn reports_of_a_pull_are_written() {
    assert_eq!(
        format_pull_info("web", &info(Some("l1"), Some("Downloading"), Some("[=>]"), None)),
        Some((Some("l1".to_string()), "l1: Downloading [=>]".to_string()))
    );
    assert_eq!(
        format_pull_info("web", &info(Some("l1"), Some("Waiting"), Some(""), None)),
        Some((Some("l1".to_string()), "l1: Waiting".to_string()))
    );
    assert_eq!(
        format_pull_info("web", &info(None, Some("Status: ok"), None, None)),
        Some((None, "Status: ok".to_string()))
    );
    assert_eq!(format_pull_info("web", &info(None, None, None, None)), None);
    assert_eq!(
        format_pull_info("web", &info(None, None, None, Some("denied"))),
        Some((None, "❌ web: denied".to_string()))
    );
}

#[test]
fn reports_on_one_layer_share_a_line() {
    let mut p = PullPopup::new();
    p.start("Pull web".to_string());
    for ev in [line(Some("l1"), "l1: 10%"), line(Some("l2"), "l2: 5%"), line(Some("l1"), "l1: 90%"), line(None, "done")] {
        p.on_event(ev);
    }
    let rows: Vec<String> = p.shown_rows(10, Theme::dark()).into_iter().map(|s| s.text).collect();
    let filled: Vec<&str> = rows.iter().map(|s| s.as_str()).filter(|s| !s.is_empty()).collect();
    assert_eq!(filled, vec!["l1: 90%", "l2: 5%", "done"]);
}

#[test]
fn end_of_a_pull_is_told_once() {
    let mut p = PullPopup::new();
    p.start("Pull web".to_string());
    assert_eq!(p.take_finished(), None);
    assert_eq!(p.heading(0), "⠋ Pull web ⠋");
    p.on_event(PullEvent::Done { ok: false, summary: "finished with errors".to_string() });
    assert_eq!(p.heading(0), "❌ Pull web");
    assert_eq!(p.footer(), "  finished with errors — esc: close • ↑/↓: scroll");
    assert_eq!(p.take_finished(), Some(false));
    assert_eq!(p.take_finished(), None);
    p.start("again".to_string());
    p.on_event(PullEvent::Done { ok: true, summary: String::new() });
    assert_eq!(p.take_finished(), Some(true));
}

#[test]
fn pull_scrolls() {
    let mut p = PullPopup::new();
    p.start("x".to_string());
    for i in 0..20 {
        p.on_event(line(None, &format!("line {i}")));
    }
    p.shown_rows(5, Theme::dark());
    p.on_key(KeyEvent { code: KeyCode::Up, control: false });
    assert_eq!(p.scroll, 1);
    p.on_key(KeyEvent { code: KeyCode::Down, control: false });
    assert_eq!(p.scroll, 0);
    p.on_key(KeyEvent { code: KeyCode::Esc, control: false });
    assert!(!p.visible);
}

#[test]
fn images_are_pulled_in_turn() {
    let mut t = PullTask::new(vec!["a:1".to_string(), "b:2".to_string()]);
    match t.begin_next() {
        Some((image, PullEvent::Line { key: None, text })) => {
            assert_eq!(image, "a:1");
            assert_eq!(text, "⏬ Pulling a:1 (1/2)");
        }
        _ => panic!("nothing begun"),
    }
    let (ev, go_on) = t.on_item("a:1", Err("gone".to_string()));
    assert!(matches!(ev, Some(PullEvent::Line { .. })));
    assert!(!go_on);
    assert_eq!(t.begin_next().unwrap().0, "b:2");
    assert!(t.begin_next().is_none());
    match t.done() {
        PullEvent::Done { ok, summary } => {
            assert!(!ok);
            assert_eq!(summary, "finished with errors");
        }
        _ => panic!("not done"),
    }
    match PullTask::new(vec!["a".to_string(), "b".to_string()]).done() {
        PullEvent::Done { summary, .. } => assert_eq!(summary, "pulled 2 images"),
        _ => panic!("not done"),
    }
}

#[test]
fn compose_pulls_are_told() {
    assert_eq!(compose_heading("shop"), "⏬ docker compose pull (shop)\r\n");
    assert_eq!(
        compose_start_failure("no docker"),
        "❌ failed to start docker compose: no docker\r\n"
    );
    assert_eq!(
        compose_pull_args("compose.yml"),
        vec!["compose", "--ansi", "always", "-f", "compose.yml", "pull"]
    );
    for (ended, ok, text) in [
        (None, false, "failed to start"),
        (Some(true), true, "pull complete"),
        (Some(false), false, "finished with errors"),
    ] {
        match compose_done(ended) {
            PullEvent::Done { ok: o, summary } => assert_eq!((o, summary.as_str()), (ok, text)),
            _ => panic!("not done"),
        }
    }
}

#[test]
fn lines_of_a_pull_have_colours() {
    let t = Theme::dark();
    assert_eq!(line_style("❌ no", t).fg, Some(t.err));
    assert_eq!(line_style("Pull complete", t).fg, Some(t.ok));
    assert_eq!(line_style("Already exists", t).fg, Some(t.ok));
    assert_eq!(line_style("Downloading", t).fg, Some(t.fg));
}
