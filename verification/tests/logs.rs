use std::collections::VecDeque;

use dockrtui::geometry::Rect;
use dockrtui::key::{KeyCode, KeyEvent};
use dockrtui::log_line::{guess_timestamp_end, level_style, mark_query, render_line};
use dockrtui::logs::{Follow, LogsAction, LogsPane, LINES_PER_TICK, MAX_LINES};
use dockrtui::theme::{Color, Style, Theme};

fn press(c: char) -> KeyEvent {
    KeyEvent { code: KeyCode::Char(c), control: false }
}

fn key(code: KeyCode) -> KeyEvent {
    KeyEvent { code, control: false }
}

fn pane(lines: &[&str]) -> LogsPane {
    let mut p = LogsPane::new();
    for l in lines {
        p.push_line(l);
    }
    p
}

fn search(p: &mut LogsPane, q: &str) {
    p.on_key(press('/'));
    for c in q.chars() {
        p.on_key(press(c));
    }
    p.on_key(key(KeyCode::Enter));
}

#[test]
fn buffer_keeps_the_newest_lines() {
    let mut p = LogsPane::new();
    for i in 0..MAX_LINES + 3 {
        p.push_line(&format!("{i}\r"));
    }
    assert_eq!(p.lines.len(), MAX_LINES);
    assert_eq!(p.lines[0], "3");
    assert_eq!(p.lines[MAX_LINES - 1], format!("{}", MAX_LINES + 2));
}

#[test]
fn a_tick_takes_so_many_lines() {
    let mut p = LogsPane::new();
    let mut waiting: VecDeque<String> = (0..LINES_PER_TICK + 5).map(|i| i.to_string()).collect();
    p.on_tick(&mut waiting);
    assert_eq!(p.lines.len(), LINES_PER_TICK);
    assert_eq!(waiting.len(), 5);
    p.on_tick(&mut waiting);
    assert_eq!(p.lines.len(), LINES_PER_TICK + 5);
    assert!(waiting.is_empty());
}

#[test]
fn stream_follows_the_pane() {
    let mut p = LogsPane::new();
    assert!(matches!(p.attach("abc"), Follow::Keep));
    assert!(matches!(p.toggle(), Follow::Keep));
    match p.restart_follow() {
        Follow::Start(id) => assert_eq!(id, "abc"),
        _ => panic!("not started"),
    }
    assert!(matches!(p.attach("abc"), Follow::Keep));
    assert!(matches!(p.attach("def"), Follow::Start(_)));
    assert!(matches!(p.toggle(), Follow::Stop));
    assert!(!p.following);
}

#[test]
fn search_shows_matching_lines() {
    let mut p = pane(&["one", "Two ERROR", "three", "error again"]);
    search(&mut p, "ErRoR");
    assert_eq!(p.filtered_view(), vec!["Two ERROR", "error again"]);
    // the jump stops the pane at a line that matches
    assert!(p.paused && !p.follow);
    // it goes to the latest match, at the bottom
    assert_eq!((p.last_match_row, p.scroll), (Some(1), 0));
    p.on_key(press('N'));
    assert_eq!((p.last_match_row, p.scroll), (Some(0), 1));
    p.on_key(key(KeyCode::Esc));
    assert_eq!(p.filtered_view().len(), 4);
    assert_eq!(p.last_match_row, None);
}

#[test]
fn matches_are_gone_through_in_turn() {
    let mut p = pane(&["a1", "b", "a2", "a3"]);
    search(&mut p, "a");
    assert_eq!(p.last_match_row, Some(2));
    for (c, row) in [('n', 0), ('n', 1), ('n', 2), ('N', 1), ('N', 0), ('N', 2)] {
        p.on_key(press(c));
        assert_eq!(p.last_match_row, Some(row));
        assert_eq!(p.scroll, 2 - row);
    }
    // a new search ends at its own latest match
    p.last_match_row = Some(0);
    search(&mut p, "a");
    assert_eq!((p.last_match_row, p.scroll), (Some(2), 0));
}

#[test]
fn row_that_is_gone_is_not_jumped_to() {
    let mut p = pane(&["a", "a", "a"]);
    search(&mut p, "a");
    p.last_match_row = Some(9);
    p.on_key(press('n'));
    assert_eq!(p.last_match_row, Some(0));
    p.last_match_row = Some(9);
    p.on_key(press('N'));
    assert_eq!(p.last_match_row, Some(2));
}

#[test]
fn log_scrolls_within_its_lines() {
    let mut p = pane(&["a", "b", "c"]);
    p.on_key(key(KeyCode::Up));
    assert_eq!((p.scroll, p.follow, p.paused), (1, false, true));
    for _ in 0..9 {
        p.on_key(key(KeyCode::Up));
    }
    assert_eq!(p.scroll, 2);
    p.on_key(key(KeyCode::PageDown));
    assert_eq!(p.scroll, 1);
    p.on_key(press('g'));
    assert_eq!(p.scroll, 2);
    p.on_key(press('G'));
    assert_eq!(p.scroll, 0);
    assert!(p.paused);
    p.on_key(press('f'));
    assert_eq!(p.last_note.as_ref().unwrap().0, "📌 follow on");
    p.on_key(key(KeyCode::End));
    assert!(!p.paused);
}

#[test]
fn log_is_saved() {
    let mut p = pane(&["x", "y z"]);
    p.attach("/web");
    match p.on_key(press('s')) {
        LogsAction::Save { filtered: false, name, text } => {
            assert_eq!(name, "dockrtui_logs_web.txt");
            assert_eq!(text, "x\ny z");
        }
        _ => panic!("nothing saved"),
    }
    search(&mut p, "z");
    match p.on_key(press('S')) {
        LogsAction::Save { filtered: true, text, .. } => assert_eq!(text, "y z"),
        _ => panic!("nothing saved"),
    }
    p.on_saved(true, Ok("/tmp/f".to_string()));
    assert_eq!(p.last_note.as_ref().unwrap().0, "💾 saved filtered: /tmp/f");
    p.on_saved(false, Err("full".to_string()));
    assert_eq!(p.last_note.as_ref().unwrap().0, "❌ save logs: full");
    match LogsPane::new().on_key(press('s')) {
        LogsAction::Save { name, .. } => assert_eq!(name, "dockrtui_logs_unknown.txt"),
        _ => panic!("nothing saved"),
    }
}

#[test]
fn state_of_the_log_is_told() {
    let mut p = pane(&["a", "b"]);
    assert_eq!(p.title(), "Logs");
    p.attach("web");
    assert_eq!(p.title(), "Logs (web) — follow");
    p.on_key(press('p'));
    assert_eq!(p.title(), "Logs (web) — paused");
    p.on_key(press('w'));
    assert!(p.footer().starts_with(
        " [FOLLOW] [PAUSE] [WRAP]  lines: 2 (filtered: 2)  pos: 2/2  — keys: p pause"
    ));
    search(&mut p, "b");
    assert!(p
        .footer()
        .starts_with(" [SCROLL] [PAUSE] [WRAP]  lines: 2 (filtered: 1)  pos: 1/1  | filter: 'b'  — keys"));
}

#[test]
fn last_lines_are_drawn() {
    let mut p = pane(&["a", "b", "c"]);
    assert!(p.draw(Rect { x: 0, y: 0, width: 80, height: 20 }, Theme::dark()).is_none());
    let two = p.draw_lines(2, Theme::dark());
    let texts: Vec<String> = two.iter().map(|l| l[0].text.clone()).collect();
    assert_eq!(texts, vec!["b", "c"]);
    assert_eq!(p.last_view_rows, 2);
}

#[test]
fn timestamps_are_seen() {
    assert_eq!(guess_timestamp_end("2024-01-02T03:04:05.123Z hello"), Some(24));
    assert_eq!(guess_timestamp_end("2024-01-02 03:04:05+02:00"), Some(25));
    assert_eq!(guess_timestamp_end("2024-01-02 03:04:0"), None);
    assert_eq!(guess_timestamp_end("2024/01/02 03:04:05 x"), None);
    assert_eq!(guess_timestamp_end("é024-01-02 03:04:05 x"), None);
}

#[test]
fn levels_have_colours() {
    let t = Theme::dark();
    assert_eq!(level_style("An ERROR here", t), Style::bold(Color::Red));
    assert_eq!(level_style("x E y", t), Style::bold(Color::Red));
    assert_eq!(level_style("Warning", t), Style::fg(Color::Yellow));
    assert_eq!(level_style("debug", t), Style::fg(Color::DarkGray));
    assert_eq!(level_style("info", t), Style::fg(t.fg));
}

#[test]
fn finds_are_marked() {
    let t = Theme::dark();
    let spans = render_line("Foo bar fOO", "foo", t);
    let texts: Vec<&str> = spans.iter().map(|s| s.text.as_str()).collect();
    assert_eq!(texts, vec!["Foo", " bar ", "fOO"]);
    assert_eq!(spans[0].style.bg, Some(t.accent));
    assert_eq!(spans[0].style.fg, Some(Color::Black));
    assert_eq!(spans[1].style.bg, None);
    let stamped = render_line("2024-01-02T03:04:05Z hi", "", t);
    assert_eq!(stamped[0].text, "2024-01-02T03:04:05Z");
    assert_eq!(stamped[1].text, " hi");
}

#[test]
fn marking_loses_nothing() {
    let t = Theme::dark();
    for s in ["", "abc", "ÀÉ abc é", "K kelvin", "İstanbul i", "xx"] {
        for q in ["", "a", "é", "x", "i", "k"] {
            let lower = s.to_lowercase();
            let spans = mark_query(s, &lower, q, Style::fg(Color::Red), t);
            let joined: String = spans.iter().map(|p| p.text.as_str()).collect();
            assert_eq!(joined, s, "{s} {q}");
        }
    }
}
