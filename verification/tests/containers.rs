use dockrtui::containers::summary::{
    key_ports, key_state, match_visible, parse_query, ContainerState, ContainerSummary, Port, PortType,
};
use dockrtui::containers::util::{alt_row_style, truncate_middle};
use dockrtui::containers::view::{ContainersAction, ContainersView, PauseJob, Popup, Target};
use dockrtui::containers::actions::{ActionKind, BarPhase, BarUpdate};
use dockrtui::containers::inspect::{
    format_inspect, InspectBinding, InspectInfo, InspectMount, InspectNetwork, InspectPort,
};
use dockrtui::key::{KeyCode, KeyEvent};
use dockrtui::draw::page::{row_style, RowLook};
use dockrtui::theme::{Color, Style, Theme};

fn container(id: &str, name: &str, state: ContainerState) -> ContainerSummary {
    ContainerSummary {
        id: Some(id.to_string()),
        names: Some(vec![name.to_string()]),
        image: Some(format!("{name}:latest")),
        created: Some(7),
        ports: Some(vec![Port {
            private_port: 80,
            public_port: Some(8080),
            typ: Some(PortType::Tcp),
        }]),
        labels: Some(vec![("com.Team".to_string(), "Blue".to_string())]),
        state: Some(state),
    }
}

fn press(c: char) -> KeyEvent {
    KeyEvent { code: KeyCode::Char(c), control: false }
}

fn key(code: KeyCode) -> KeyEvent {
    KeyEvent { code, control: false }
}

fn view() -> ContainersView {
    let mut v = ContainersView::new(Theme::dark(), 0);
    v.refresh(
        vec![
            container("1", "/web", ContainerState::Running),
            container("2", "/db", ContainerState::Exited),
            container("3", "/cache", ContainerState::Paused),
        ],
        5,
    );
    v
}

#[test]
fn middle_is_cut() {
    assert_eq!(truncate_middle("short", 10), "short");
    assert_eq!(truncate_middle("abcdefghij", 7), "ab...ij");
    assert_eq!(truncate_middle("abcdefghij", 8), "ab...hij");
    assert_eq!(truncate_middle("abcdefghij", 3), "...");
    assert_eq!(truncate_middle("éééééééé", 5), "é...é");
}

#[test]
fn query_is_taken_apart() {
    let (tokens, labels) = parse_query("  Web @Team=Blue @env  DB ");
    assert_eq!(tokens, vec!["web", "db"]);
    assert_eq!(
        labels,
        vec![
            ("team".to_string(), Some("blue".to_string())),
            ("env".to_string(), None)
        ]
    );
}

#[test]
fn query_is_met_by_texts_and_labels() {
    let c = container("1", "/Web", ContainerState::Running);
    let meets = |q: &str| {
        let (t, l) = parse_query(q);
        match_visible(&c, &t, &l)
    };
    assert!(meets(""));
    assert!(meets("WEB running"));
    assert!(meets("8080->80/tcp"));
    assert!(meets("@team"));
    assert!(meets("web @team=bl"));
    assert!(!meets("@team=red"));
    assert!(!meets("web nothing"));
    let bare = ContainerSummary {
        id: None,
        names: None,
        image: None,
        created: None,
        ports: None,
        labels: None,
        state: None,
    };
    let (t, l) = parse_query("@x");
    assert!(!match_visible(&bare, &t, &l));
    let (t, l) = parse_query("");
    assert!(match_visible(&bare, &t, &l));
    assert_eq!(key_state(&bare), "~");
    assert_eq!(key_ports(&bare), "");
    assert_eq!(key_ports(&c), "1");
}

#[test]
fn list_is_sorted_and_filtered() {
    let mut v = view();
    assert_eq!(v.visible_indices(), vec![2, 1, 0]);
    v.on_key(press('O'));
    assert_eq!(v.visible_indices(), vec![0, 1, 2]);
    v.on_key(press('/'));
    for c in "db".chars() {
        v.on_key(press(c));
    }
    v.on_key(key(KeyCode::Enter));
    assert_eq!(v.visible_indices(), vec![1]);
    assert!(!v.is_modal_open());
    assert_eq!(v.selected_id(), Some("2".to_string()));
}

#[test]
fn sort_keys_come_round() {
    let mut v = view();
    let mut seen = Vec::new();
    for _ in 0..5 {
        seen.push(format!("{:?}", v.sort_key));
        v.on_key(press('o'));
    }
    assert_eq!(seen, vec!["Name", "Image", "State", "Created", "Ports"]);
    assert_eq!(format!("{:?}", v.sort_key), "Name");
}

#[test]
fn enter_starts_and_stops() {
    let mut v = view();
    // the cursor begins on the first row, which is the cache
    assert_eq!(v.selected_id(), Some("3".to_string()));
    v.on_key(key(KeyCode::Enter));
    v.on_key(key(KeyCode::Down));
    v.on_key(key(KeyCode::Down));
    v.on_key(press(' '));
    let first = v.on_tick().unwrap();
    assert!(matches!(first.kind, ActionKind::Starting));
    assert_eq!(first.target.id, "3");
    // one action at a time
    assert!(v.on_tick().is_none());
    v.on_action_end(Ok(()));
    assert!(v.settle(true, true));
    let second = v.on_tick().unwrap();
    assert!(matches!(second.kind, ActionKind::Stopping));
    assert_eq!(second.target.id, "1");
}

#[test]
fn restart_is_a_stop_and_a_start() {
    let mut v = view();
    v.on_key(press('R'));
    assert_eq!(v.queue.len(), 2);
    assert!(matches!(v.queue[0].kind, ActionKind::Stopping));
    assert!(matches!(v.queue[1].kind, ActionKind::Starting));
}

#[test]
fn removal_is_asked_for() {
    let mut v = view();
    assert!(matches!(v.on_key(press('d')), ContainersAction::Nothing));
    assert!(v.has_modal());
    assert!(matches!(v.on_key(press('n')), ContainersAction::Nothing));
    assert!(!v.has_modal());
    v.on_key(press('x'));
    v.on_key(key(KeyCode::Down));
    v.on_key(press('x'));
    v.on_key(press('D'));
    match &v.popup {
        Some(Popup::ConfirmDelete { items }) => assert_eq!(items.len(), 2),
        _ => panic!("no question"),
    }
    match v.on_key(press('y')) {
        ContainersAction::Remove(items) => {
            let ids: Vec<&str> = items.iter().map(|t| t.id.as_str()).collect();
            assert_eq!(ids, vec!["3", "2"]);
            v.on_removed(&items, &vec![None, Some("busy".to_string())]);
            assert!(v.last_note.is_some());
        }
        _ => panic!("not removed"),
    }
}

#[test]
fn shell_is_for_running_containers() {
    let mut v = view();
    assert!(matches!(v.on_key(press('b')), ContainersAction::Nothing));
    assert_eq!(
        v.last_note.as_ref().unwrap().0,
        "⚠ shell only available on a running container"
    );
    v.on_key(key(KeyCode::Down));
    v.on_key(key(KeyCode::Down));
    match v.on_key(press('b')) {
        ContainersAction::OpenShell(t) => assert_eq!(t.id, "1"),
        _ => panic!("no shell"),
    }
}

#[test]
fn table_of_the_list_is_saved() {
    let mut v = view();
    match v.on_key(press('S')) {
        ContainersAction::Save(t) => assert_eq!(
            t,
            "STATE\tNAME\tIMAGE\tPORTS\tID\n\
             PAUSED\t/cache\t/cache:latest\t8080->80/TCP\t3\n\
             EXITED\t/db\t/db:latest\t8080->80/TCP\t2\n\
             RUNNING\t/web\t/web:latest\t8080->80/TCP\t1\n"
        ),
        _ => panic!("nothing to save"),
    }
}

#[test]
fn cursor_stays_on_a_row() {
    let mut v = view();
    for _ in 0..9 {
        v.on_key(key(KeyCode::Down));
    }
    assert_eq!(v.selected, Some(2));
    v.refresh(vec![container("1", "/web", ContainerState::Running)], 9);
    assert_eq!(v.selected, Some(0));
    v.refresh(vec![], 10);
    assert_eq!(v.selected, None);
    assert_eq!(v.selected_id(), None);
}

#[test]
fn inspection_is_written_out() {
    let info = InspectInfo {
        id: Some("abc".to_string()),
        image: None,
        running: Some(false),
        status: Some("EXITED".to_string()),
        health: None,
        started: Some("then".to_string()),
        finished: None,
        env: Some((0..42).map(|i| format!("K{i}=v")).collect()),
        networks: Some(vec![InspectNetwork {
            name: "bridge".to_string(),
            ip: Some("10.0.0.2".to_string()),
            gateway: None,
        }]),
        mounts: Some(vec![InspectMount {
            typ: Some("BIND".to_string()),
            source: Some("/a".to_string()),
            destination: Some("/b".to_string()),
        }]),
        ports: Some(vec![
            InspectPort {
                port: "80/tcp".to_string(),
                bindings: Some(vec![InspectBinding {
                    host_ip: None,
                    host_port: Some("8080".to_string()),
                }]),
            },
            InspectPort { port: "81/tcp".to_string(), bindings: None },
        ]),
    };
    let mut want = String::from(
        "# web\n\nID      : abc\nImage   : \nState   : EXITED  (running=false, health=-)\nStarted : then\nFinished: -\n\n## Env\n",
    );
    for i in 0..40 {
        want.push_str(&format!("- K{i}=v\n"));
    }
    want.push_str("… (+2 env)\n\n## Networks\n- bridge: ip=10.0.0.2 gw=-\n\n## Mounts\n- [BIND] /a → /b\n\n## Ports\n- 0.0.0.0:8080 -> 80/tcp\n- 81/tcp\n");
    assert_eq!(format_inspect("web", &info), want);
}

#[test]
fn every_other_row_is_shaded() {
    let shade = alt_row_style();
    assert_eq!((shade.fg, shade.bg), (None, Some(Color::Rgb(16, 18, 20))));
    let theme = Theme::dark();
    assert_eq!(row_style(RowLook::Alternate, theme), shade);
    assert_eq!(row_style(RowLook::Plain, theme), Style::plain());
    let under_the_cursor = row_style(RowLook::Selected, theme);
    assert_eq!(under_the_cursor.fg, Some(theme.accent));
    assert!(under_the_cursor.bold);
}

fn note(v: &mut ContainersView) -> String {
    match v.last_note.take() {
        Some((msg, _)) => msg,
        None => String::new(),
    }
}

#[test]
fn outcomes_are_told() {
    let mut v = view();
    let web = || Target { id: "1".to_string(), name: "/web".to_string() };
    let next = v.on_paused(web(), true, Ok(()));
    assert!(matches!(next, ContainersAction::Refresh { announce: false, strict: false }));
    assert_eq!(note(&mut v), "⏸ paused /web");
    let next = v.on_paused(web(), false, Err("no".to_string()));
    assert!(matches!(next, ContainersAction::Nothing));
    assert_eq!(note(&mut v), "❌ unpause: no");

    let jobs = vec![
        PauseJob { target: web(), pause: true },
        PauseJob { target: web(), pause: false },
    ];
    v.on_paused_many(&jobs, &vec![None, None]);
    assert_eq!(note(&mut v), "▶ unpaused: 1");
    v.on_paused_many(&jobs, &vec![None, Some("busy".to_string())]);
    assert_eq!(note(&mut v), "❌ /web: busy");

    v.on_removed(&vec![web(), web()], &vec![None, Some("gone".to_string())]);
    assert_eq!(note(&mut v), "❌ failed: /web (gone)");
    v.on_removed(&vec![web(), web()], &vec![None, None]);
    assert_eq!(note(&mut v), "🗑 removed: 2");

    v.on_inspected("/web", Err("lost".to_string()));
    assert_eq!(note(&mut v), "❌ inspect: lost");
    v.on_saved(Err("full".to_string()));
    assert_eq!(note(&mut v), "❌ save: full");
    v.on_saved(Ok("/tmp/x".to_string()));
    assert_eq!(note(&mut v), "💾 saved /tmp/x");
    v.on_refreshed(vec![], 9, true);
    assert_eq!(note(&mut v), "✅ refreshed");
    assert_eq!(v.selected, None);
}

#[test]
fn action_closes_once_all_have_arrived() {
    let mut v = view();
    v.on_key(key(KeyCode::Enter));
    assert!(v.on_tick().is_some());
    v.on_bar_update(BarUpdate { pct: 60, phase: BarPhase::WaitingRunning });
    let anim = v.anim.as_ref().unwrap();
    assert_eq!((anim.bar_target_pct, anim.bar_phase), (60, BarPhase::WaitingRunning));
    // neither the bar nor the engine alone closes it
    assert!(!v.settle(true, true));
    v.on_action_end(Err("no such image".to_string()));
    assert!(!v.settle(true, false));
    assert!(!v.settle(false, true));
    assert!(v.anim.is_some());
    assert!(v.settle(true, true));
    assert!(v.anim.is_none());
    assert_eq!(note(&mut v), "❌ action /cache: no such image");
}

#[test]
fn refresh_keys_ask_for_the_list() {
    let mut v = view();
    for k in [press('r'), key(KeyCode::F(5))] {
        let a = v.on_key(k);
        assert!(matches!(a, ContainersAction::Refresh { announce: true, strict: true }));
    }
    assert!(v.all);
    let a = v.on_key(press('a'));
    assert!(matches!(a, ContainersAction::Refresh { announce: false, strict: true }));
    assert!(!v.all);
}

#[test]
fn marks_are_set_and_taken_back() {
    let mut v = view();
    v.on_key(press('x'));
    assert_eq!(v.chosen().len(), 1);
    v.on_key(press('x'));
    assert_eq!(v.chosen().len(), 0);
    v.on_key(press('A'));
    assert_eq!(note(&mut v), "⚠ no selection");
    v.on_key(press('x'));
    v.on_key(press('A'));
    assert_eq!(note(&mut v), "🧰 batch queued");
    assert_eq!(v.queue.len(), 1);
    v.on_key(press('C'));
    assert_eq!(v.chosen().len(), 0);
}
