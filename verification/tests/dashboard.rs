use std::collections::VecDeque;

use dockrtui::compose::{ComposeAction, ComposeCommand, ComposeProject};
use dockrtui::containers::summary::{ContainerState, ContainerSummary};
use dockrtui::containers::view::Popup;
use dockrtui::draw::page::{row_style, RowLook};
use dockrtui::geometry::Rect;
use dockrtui::key::{KeyCode, KeyEvent};
use dockrtui::logs::{Follow, LogsAction};
use dockrtui::theme::{Color, Theme};
use dockrtui::ui::{Tab, Toasts, Ui, UiAction};

fn press(c: char) -> KeyEvent {
    KeyEvent { code: KeyCode::Char(c), control: false }
}

fn key(code: KeyCode) -> KeyEvent {
    KeyEvent { code, control: false }
}

fn container(id: &str, state: ContainerState) -> ContainerSummary {
    ContainerSummary {
        id: Some(id.to_string()),
        names: Some(vec![format!("/c{id}")]),
        image: Some("img".to_string()),
        created: None,
        ports: None,
        labels: None,
        state: Some(state),
    }
}

fn area() -> Rect {
    Rect { x: 0, y: 0, width: 120, height: 40 }
}

fn text(l: &[dockrtui::theme::Span]) -> String {
    l.iter().map(|s| s.text.as_str()).collect()
}

fn ui() -> Ui {
    let mut u = Ui::new(0);
    u.containers
        .refresh(vec![container("1", ContainerState::Running), container("2", ContainerState::Dead)], 0);
    u
}

#[test]
fn tabs_are_turned() {
    let mut u = ui();
    for tab in [Tab::Images, Tab::Networks, Tab::Compose, Tab::Volumes, Tab::Containers] {
        u.on_key(key(KeyCode::Tab), 0);
        assert_eq!(u.tab, tab);
    }
    u.on_key(key(KeyCode::BackTab), 0);
    assert_eq!(u.tab, Tab::Volumes);
    u.on_key(press('3'), 0);
    assert_eq!(u.tab, Tab::Networks);
    assert_eq!(u.selected_index(), 2);
}

#[test]
fn popup_takes_the_keys() {
    let mut u = ui();
    u.on_key(press('d'), 0);
    assert!(u.is_modal_open());
    u.on_key(key(KeyCode::Tab), 0);
    u.on_key(press('l'), 0);
    assert_eq!(u.tab, Tab::Containers);
    assert!(!u.logs.visible);
    u.on_key(key(KeyCode::Esc), 0);
    assert!(!u.is_modal_open());
}

#[test]
fn images_hold_the_keys_too() {
    let mut u = ui();
    u.on_key(press('2'), 0);
    u.on_key(press('/'), 0);
    assert!(u.is_modal_open());
    // what is typed goes to the search line, and nothing ends the program
    for c in ['l', 't', '3', 'q'] {
        let (action, quit) = dockrtui::app::press(&mut u, press(c), 0);
        assert!(matches!(action, UiAction::Images(_)) && !quit);
    }
    assert_eq!(u.images.query, "lt3q");
    assert_eq!(u.tab, Tab::Images);
    u.on_key(key(KeyCode::Enter), 0);
    assert!(!u.is_modal_open());
}

#[test]
fn search_line_of_the_containers_takes_the_keys() {
    let mut u = ui();
    u.on_key(press('/'), 0);
    for c in ['l', '2'] {
        u.on_key(press(c), 0);
    }
    assert_eq!((u.containers.query.as_str(), u.tab), ("l2", Tab::Containers));
}

#[test]
fn closing_is_not_quitting() {
    let mut u = ui();
    u.containers.popup = Some(Popup::Inspect("details".to_string()));
    let (_, quit) = dockrtui::app::press(&mut u, press('q'), 0);
    assert!(!quit);
    assert!(u.containers.popup.is_none() && !u.is_modal_open());
    let (_, quit) = dockrtui::app::press(&mut u, press('q'), 0);
    assert!(quit);
}

#[test]
fn compose_tab_has_its_own_log() {
    let mut u = ui();
    u.on_key(press('4'), 0);
    u.compose.scan_projects(
        vec![ComposeProject {
            name: "shop".to_string(),
            path: "/x".to_string(),
            file_name: "compose.yml".to_string(),
            status: None,
        }],
        vec![],
        0,
    );
    u.compose.selected = Some(0);
    match u.on_key(press('l'), 0) {
        UiAction::Compose(ComposeAction::Run(ComposeCommand::Logs, p)) => assert_eq!(p.name, "shop"),
        _ => panic!("no log"),
    }
    assert!(!u.logs.visible);
}

#[test]
fn log_is_opened_and_closed() {
    let mut u = ui();
    match u.on_key(press('l'), 0) {
        UiAction::LogStream(Follow::Start(id)) => assert_eq!(id, "1"),
        _ => panic!("no stream"),
    }
    assert!(u.is_modal_open());
    assert!(matches!(u.on_key(press('s'), 0), UiAction::Logs(LogsAction::Save { .. })));
    assert!(matches!(
        u.on_key(key(KeyCode::Esc), 0),
        UiAction::LogStream(Follow::Stop)
    ));
    assert!(!u.is_modal_open());
}

#[test]
fn statistics_are_opened_and_closed() {
    let mut u = ui();
    match u.on_key(press('t'), 0) {
        UiAction::StatStream { reset: true, stream: Follow::Start(id) } => assert_eq!(id, "1"),
        _ => panic!("no stream"),
    }
    // another container under the cursor takes over at the next tick
    u.containers.selected = Some(1);
    let mut waiting = VecDeque::new();
    let t = u.on_tick(vec![], vec![], &mut waiting);
    assert!(t.reset_stats);
    assert!(matches!(t.attach_stats, Follow::Start(_)));
    assert!(matches!(
        u.on_key(press('t'), 0),
        UiAction::StatStream { stream: Follow::Stop, .. }
    ));
}

#[test]
fn nothing_under_the_cursor_is_said() {
    let mut u = Ui::new(0);
    assert!(matches!(u.on_key(press('l'), 10), UiAction::Nothing));
    let (msg, style) = u.footer(11);
    assert_eq!(msg, "⚠ no container selected");
    assert_eq!(style.bg, Some(u.theme.warn));
    let (help, _) = u.footer(2_010);
    assert!(help.starts_with("q: quit • esc: back/close popup"));
}

#[test]
fn messages_go_after_a_while() {
    let mut t = Toasts::new();
    t.push("one".to_string(), Color::Red, 100, 0);
    t.push("two".to_string(), Color::Green, 50, 0);
    assert_eq!(t.render(10).unwrap().0, "two");
    assert_eq!(t.render(60).unwrap().0, "one");
    assert!(t.render(100).is_none());
    assert!(t.list.is_empty());
    t.push("three".to_string(), Color::Red, u64::MAX, 5);
    assert_eq!(t.render(1_000).unwrap().0, "three");
}

#[test]
fn notes_become_messages_once() {
    let mut u = ui();
    u.volumes.last_note = Some(("v".to_string(), Color::Red));
    u.containers.last_note = Some(("c".to_string(), Color::Red));
    u.collect_notes(0);
    assert_eq!(u.toasts.list.len(), 2);
    assert_eq!(u.toasts.render(1).unwrap().0, "v");
    u.collect_notes(1);
    assert_eq!(u.toasts.list.len(), 2);
    assert!(u.containers.last_note.is_none());
}

#[test]
fn foot_is_higher_with_a_message() {
    let mut u = ui();
    let f = u.draw(area(), 0);
    assert_eq!((f.titles.height, f.foot.height, f.selected), (3, 2, 0));
    u.toasts.push("x".to_string(), Color::Red, 100, 0);
    let f = u.draw(area(), 1);
    assert_eq!(f.foot.height, 3);
    assert_eq!(f.text, "x");
}

#[test]
fn containers_page_is_drawn() {
    let mut u = ui();
    u.containers.query = "c".to_string();
    u.on_key(press('x'), 0);
    let p = u.containers.draw(area(), 5_000, Color::Blue);
    assert_eq!(p.head.height, 3);
    let bar = text(&p.bar);
    assert!(bar.ends_with(" | filter: 'c' | sort: name↑ | selected: 1"));
    assert_eq!(p.rows.len(), 2);
    let cells: Vec<&str> = p.rows[0].cells.iter().map(|s| s.text.as_str()).collect();
    assert_eq!(cells, vec!["●", "▣ /c1", "img", " RUNNING ", ""]);
    assert_eq!(p.rows[0].cells[0].style.fg, Some(Color::Blue));
    assert_eq!(p.rows[1].cells[0].text, "·");
    assert_eq!(p.rows[1].cells[3].text, " DEAD ");
    assert_eq!((p.rows[0].look, p.rows[1].look), (RowLook::Selected, RowLook::Alternate));
    let fresh = u.containers.draw(area(), 100, Color::Blue);
    assert!(text(&fresh.bar).ends_with(" ⠋"));
    u.on_key(press('d'), 0);
    let p = u.containers.draw(area(), 5_000, Color::Blue);
    let b = p.popup.unwrap();
    assert_eq!(b.text, "Confirm deletion of /c1?");
    assert_eq!(b.area, Rect { x: 30, y: 16, width: 60, height: 8 });
}

#[test]
fn action_box_is_drawn() {
    let mut u = ui();
    assert!(u.containers.draw_action(area()).is_none());
    u.on_key(key(KeyCode::Enter), 0);
    let mut waiting = VecDeque::new();
    assert!(u.on_tick(vec![], vec![], &mut waiting).begin.is_some());
    let b = u.containers.draw_action(area()).unwrap();
    assert_eq!(b.title, "Landing…");
    assert_eq!(b.area, Rect { x: 40, y: 3, width: 40, height: 34 });
    assert_eq!(text(&b.name), " /c1");
    assert_eq!(b.progress_title, "Progress (init)");
    assert!(u.containers.draw_action(Rect { x: 0, y: 0, width: 37, height: 40 }).is_none());
}

#[test]
fn other_pages_are_drawn() {
    let mut u = ui();
    u.volumes.on_key(press('X'));
    let p = u.volumes.draw(area(), 5_000);
    assert_eq!(p.popup.unwrap().title, " Confirm Prune ");
    u.volumes.on_key(press('n'));
    u.volumes.on_key(press('/'));
    u.volumes.on_key(press('a'));
    let s = u.volumes.draw_search(area()).unwrap();
    assert_eq!(s.text, "a_");
    assert_eq!(s.area, Rect { x: 40, y: 2, width: 40, height: 3 });
    assert!(text(&u.networks.draw(area(), 5_000).bar).ends_with(" | sort: name↑ | mode: user-defined"));
    assert!(text(&u.images.draw(area(), 5_000, 0).bar).ends_with(" | sort: repo↑ | mode: all"));
    assert!(u.compose.draw(area(), 5_000).rows.is_empty());
    let t = Theme::dark();
    assert_eq!(row_style(RowLook::Selected, t).fg, Some(t.accent));
    assert_eq!(row_style(RowLook::Alternate, t).bg, Some(Color::Rgb(16, 18, 20)));
}

#[test]
fn shell_box_is_drawn() {
    let t = Theme::dark();
    let mut sh = dockrtui::containers::shell::ShellPopup::new("abc".to_string(), "web".to_string());
    sh.input = "ls".to_string();
    let b = sh.draw(area(), 0, t).unwrap();
    assert_eq!(b.title, "Shell — web (abc)");
    assert_eq!(text(&b.input), "web:/$ ls█");
    assert_eq!(b.output.len(), 1);
    sh.running = true;
    let b = sh.draw(area(), 0, t).unwrap();
    assert_eq!(b.output[1].text, "⠋ running…");
    assert!(text(&b.hint).ends_with("(cd, cd -, cd ~)  (sh)"));
    assert!(sh.draw(Rect { x: 0, y: 0, width: 50, height: 40 }, 0, t).is_none());
}

#[test]
fn log_pane_lies_at_the_right() {
    let mut u = ui();
    u.on_key(press('l'), 0);
    u.logs.push_line("hello");
    let b = u.logs.draw(area(), Theme::dark()).unwrap();
    assert_eq!((b.area.x, b.area.width), (60, 60));
    assert_eq!(b.lines.len(), 1);
    assert_eq!(b.title, "Logs (1) — follow");
    assert_eq!(u.logs.last_view_rows, 37);
}

#[test]
fn newest_line_stands_above_the_footer() {
    let mut u = ui();
    u.on_key(press('l'), 0);
    for i in 0..100 {
        u.logs.push_line(&format!("line {i}"));
    }
    let b = u.logs.draw(area(), Theme::dark()).unwrap();
    assert_eq!((b.body.height, b.foot.height), (37, 1));
    assert_eq!(b.lines.len(), 37);
    assert_eq!(text(&b.lines[36]), "line 99");
    assert_eq!(text(&b.lines[0]), "line 63");
}
