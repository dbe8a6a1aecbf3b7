use dockrtui::compose::{
    compose_args, editor, merge_projects, projects_from_docker_ls, projects_from_fs, ComposeAction,
    ComposeCommand, ComposeProject, ComposeView, DirEntry,
};
use dockrtui::images::{image_name, pullable_ref, ImageSummary, ImagesAction, ImagesView};
use dockrtui::key::{KeyCode, KeyEvent};
use dockrtui::list;
use dockrtui::networks::{
    fetch_networks, inspect_args, is_builtin_network_name, parse_networks, remove_args,
    NetworksAction, NetworksView,
};
use dockrtui::order::{arrange, SortValue};
use dockrtui::output::CommandOutput;
use dockrtui::pull::PullEvent;
use dockrtui::theme::Theme;
use dockrtui::volumes::{volume_cells, Volume, VolumeScope, VolumesAction, VolumesView};

fn press(c: char) -> KeyEvent {
    KeyEvent { code: KeyCode::Char(c), control: false }
}

fn key(code: KeyCode) -> KeyEvent {
    KeyEvent { code, control: false }
}

fn said(out: &str) -> CommandOutput {
    CommandOutput { success: true, code: Some(0), stdout: out.as_bytes().to_vec(), stderr: vec![] }
}

fn failed(err: &str) -> CommandOutput {
    CommandOutput { success: false, code: Some(1), stdout: vec![], stderr: err.as_bytes().to_vec() }
}

/* ---- what the lists have in common ---- */

#[test]
fn cursor_moves_within_the_rows() {
    assert_eq!(list::cursor_down(None, 3), Some(1));
    assert_eq!(list::cursor_down(Some(2), 3), Some(2));
    assert_eq!(list::cursor_up(Some(0), 3), Some(0));
    assert_eq!(list::cursor_up(Some(2), 3), Some(1));
    assert_eq!(list::cursor_down(Some(5), 0), None);
    assert_eq!(list::hold_cursor(None, 2), Some(0));
    assert_eq!(list::hold_cursor(Some(9), 2), Some(1));
    assert_eq!(list::clamp_cursor(None, 2), None);
    assert_eq!(list::query_words(" Ab  cD "), vec!["ab", "cd"]);
}

#[test]
fn rows_are_arranged_and_equals_stay_in_order() {
    let keys = || {
        vec![
            SortValue::Text("b".to_string()),
            SortValue::Text("a".to_string()),
            SortValue::Text("b".to_string()),
            SortValue::Text("c".to_string()),
        ]
    };
    let keep = vec![true, true, true, false];
    assert_eq!(arrange(&keep, &keys(), true), vec![1, 0, 2]);
    assert_eq!(arrange(&keep, &keys(), false), vec![0, 2, 1]);
    let nums = vec![SortValue::Num(5), SortValue::Num(-1)];
    assert_eq!(arrange(&vec![true, true], &nums, true), vec![1, 0]);
    let maybe = vec![SortValue::Maybe(Some("x".to_string())), SortValue::Maybe(None)];
    assert_eq!(arrange(&vec![true, true], &maybe, true), vec![1, 0]);
}

/* ---- images ---- */

fn image(id: &str, tags: &[&str], size: i64, created: i64) -> ImageSummary {
    ImageSummary {
        id: id.to_string(),
        repo_tags: tags.iter().map(|s| s.to_string()).collect(),
        size,
        created,
    }
}

fn images() -> ImagesView {
    let mut v = ImagesView::new(Theme::dark(), 0);
    v.refresh(
        vec![
            image("sha256:aa", &["web:1"], 2048, 100),
            image("sha256:bb", &["<none>:<none>"], 10, 300),
            image("sha256:cc", &[], 99, 200),
        ],
        1,
    );
    v
}

#[test]
fn images_have_names_and_references() {
    assert_eq!(image_name(&image("x", &[], 0, 0)), "<none>:<none>");
    assert_eq!(image_name(&image("x", &["a:1", "b:2"], 0, 0)), "a:1");
    assert_eq!(pullable_ref(&image("x", &["", "<none>:<none>", "b:2"], 0, 0)), Some("b:2".to_string()));
    assert_eq!(pullable_ref(&image("x", &["<none>:<none>"], 0, 0)), None);
}

#[test]
fn images_are_filtered_and_sorted() {
    let mut v = images();
    assert_eq!(v.visible_indices(), vec![1, 2, 0]);
    v.on_key(press('o'));
    assert_eq!(v.visible_indices(), vec![1, 2, 0]);
    v.on_key(press('O'));
    assert_eq!(v.visible_indices(), vec![0, 2, 1]);
    v.on_key(press('a'));
    assert_eq!(v.visible_indices(), vec![2, 1]);
}

#[test]
fn image_is_deleted_once_agreed() {
    let mut v = images();
    v.on_key(key(KeyCode::Down));
    v.on_key(key(KeyCode::Down));
    assert!(matches!(v.on_key(press('d')), ImagesAction::Nothing));
    match v.on_key(key(KeyCode::Enter)) {
        ImagesAction::Delete { id, name } => {
            assert_eq!((id.as_str(), name.as_str()), ("sha256:aa", "web:1"));
        }
        _ => panic!("not deleted"),
    }
    assert!(!v.on_deleted("web:1", Err("in use".to_string())));
    assert!(v.on_deleted("web:1", Ok(())));
}

#[test]
fn pull_of_images_is_followed() {
    let mut v = images();
    v.on_key(press('p'));
    assert_eq!(
        v.last_note.as_ref().unwrap().0,
        "⚠ nothing to pull (need a repo:tag)"
    );
    v.on_key(key(KeyCode::Down));
    v.on_key(key(KeyCode::Down));
    match v.on_key(press('p')) {
        ImagesAction::Pull(l) => assert_eq!(l, vec!["web:1"]),
        _ => panic!("nothing pulled"),
    }
    assert!(v.has_modal());
    assert!(!v.on_tick(vec![PullEvent::Line { key: None, text: "x".to_string() }]));
    assert!(v.on_tick(vec![PullEvent::Done { ok: true, summary: "pull complete".to_string() }]));
    assert_eq!(v.last_note.as_ref().unwrap().0, "✅ pull complete");
    // told once
    assert!(!v.on_tick(vec![]));
}

#[test]
fn image_table_is_saved() {
    let v = images();
    let t = v.visible_table(100 + 3_600);
    let lines: Vec<&str> = t.lines().collect();
    assert_eq!(lines.len(), 4);
    assert!(lines[3].contains("web:1") && lines[3].contains("2.0 KiB"));
}

/* ---- networks ---- */

#[test]
fn networks_are_read() {
    let rows = parse_networks("1\tbridge\tbridge\tlocal\n\n bad line \n2\tmine\toverlay\tswarm\textra\r\n");
    assert_eq!(rows.len(), 2);
    assert_eq!(rows[1].name, "mine");
    assert_eq!(rows[1].scope, "swarm");
    assert!(fetch_networks(&said("1\ta\tb\tc")).is_ok());
    match fetch_networks(&failed("no daemon")) {
        Err(e) => assert_eq!(e, "docker network ls failed: no daemon"),
        Ok(_) => panic!("no error"),
    }
}

#[test]
fn builtin_networks_are_kept() {
    assert!(is_builtin_network_name("host"));
    assert!(!is_builtin_network_name("Host"));
    let mut v = NetworksView::new(Theme::dark(), 0);
    v.refresh(parse_networks("1\tbridge\tbridge\tlocal\n2\tmine\toverlay\tswarm"), 1);
    assert_eq!(v.visible_indices(), vec![1]);
    v.on_key(press('a'));
    assert_eq!(v.visible_indices(), vec![0, 1]);
    v.on_key(key(KeyCode::Up));
    v.on_key(press('d'));
    assert!(!v.has_modal());
    assert_eq!(
        v.last_note.as_ref().unwrap().0,
        "⚠ built-in network cannot be removed (bridge/host/none)"
    );
    v.on_key(key(KeyCode::Down));
    v.on_key(press('d'));
    match v.on_key(press('y')) {
        NetworksAction::Delete { id, name } => assert_eq!((id.as_str(), name.as_str()), ("2", "mine")),
        _ => panic!("not deleted"),
    }
}

/* ---- volumes ---- */

fn volume(name: &str, scope: Option<VolumeScope>) -> Volume {
    Volume {
        name: name.to_string(),
        driver: "local".to_string(),
        mountpoint: format!("/var/lib/docker/volumes/{name}/_data"),
        created_at: None,
        scope,
    }
}

#[test]
fn volumes_are_shown_cut() {
    let (name, driver, mount, scope) = volume_cells(&volume(&"v".repeat(40), Some(VolumeScope::Local)));
    assert_eq!(name.chars().count(), 30);
    assert_eq!(driver, "local");
    assert_eq!(mount.chars().count(), 40);
    assert_eq!(scope, "LOCAL");
    assert_eq!(volume_cells(&volume("a", None)).3, "N/A");
}

#[test]
fn volumes_are_pruned_once_agreed() {
    let mut v = VolumesView::new(Theme::dark(), 0);
    v.refresh(vec![volume("b", None), volume("a", None)], 1);
    assert_eq!(v.visible_indices(), vec![1, 0]);
    assert!(matches!(v.on_key(press('X')), VolumesAction::Nothing));
    assert!(v.has_modal());
    assert!(matches!(v.on_key(press('y')), VolumesAction::Prune));
    let mut w = VolumesView::new(Theme::dark(), 0);
    w.refresh(vec![volume("b", None), volume("a", None)], 1);
    w.on_key(press('d'));
    match w.on_key(press('y')) {
        VolumesAction::Delete(n) => assert_eq!(n, "a"),
        _ => panic!("not deleted"),
    }
}

/* ---- compose ---- */

fn project(name: &str, path: &str, file: &str, status: Option<&str>) -> ComposeProject {
    ComposeProject {
        name: name.to_string(),
        path: path.to_string(),
        file_name: file.to_string(),
        status: status.map(String::from),
    }
}

#[test]
fn projects_are_listed_by_the_engine() {
    let json = r#"[
        {"Name":"app","Status":"running(2)","ConfigFiles":" , /srv/app/compose.yml, /x/y.yml"},
        {"Name":"","WorkingDir":"/srv/other"},
        {"Status":""}
    ]"#;
    let l = projects_from_docker_ls(&said(json));
    assert_eq!(l.len(), 3);
    assert_eq!(
        (l[0].name.as_str(), l[0].path.as_str(), l[0].file_name.as_str()),
        ("app", "/srv/app", "compose.yml")
    );
    assert_eq!(l[0].status, Some("running(2)".to_string()));
    assert_eq!(
        (l[1].name.as_str(), l[1].path.as_str(), l[1].status.is_none()),
        ("docker-compose.yml", "/srv/other", true)
    );
    assert_eq!(l[2].path, ".");
    assert!(projects_from_docker_ls(&said("nonsense")).is_empty());
    assert!(projects_from_docker_ls(&said("{}")).is_empty());
    assert!(projects_from_docker_ls(&failed("x")).is_empty());
}

#[test]
fn projects_are_found_in_a_directory() {
    let entries = vec![
        DirEntry { is_file: true, name: Some("compose.yaml".to_string()) },
        DirEntry { is_file: false, name: Some("compose.yml".to_string()) },
        DirEntry { is_file: true, name: Some("notes.txt".to_string()) },
        DirEntry { is_file: true, name: None },
    ];
    let l = projects_from_fs("/home/me/shop", &entries);
    assert_eq!(l.len(), 1);
    assert_eq!(
        (l[0].name.as_str(), l[0].path.as_str(), l[0].file_name.as_str()),
        ("shop", "/home/me/shop", "compose.yaml")
    );
    assert_eq!(projects_from_fs("/", &entries)[0].name, ".");
}

#[test]
fn projects_are_merged_by_place() {
    let found = vec![
        project("x", "/x/", "compose.yml", None),
        project("x", "/x/", "compose.yaml", None),
    ];
    let listed = vec![
        project("shop", "/x", "compose.yml", Some("running(1)")),
        project("a", "/y", "compose.yml", None),
    ];
    let m = merge_projects(found, listed);
    let rows: Vec<(&str, &str, Option<&str>)> = m
        .iter()
        .map(|p| (p.name.as_str(), p.file_name.as_str(), p.status.as_deref()))
        .collect();
    // "/x" and "/x/" are the same place, and the listing knows more of it
    assert_eq!(
        rows,
        vec![
            ("a", "compose.yml", None),
            ("shop", "compose.yml", Some("running(1)")),
            ("x", "compose.yaml", None),
        ]
    );
}

#[test]
fn places_are_told_by_their_components() {
    for (a, b, same) in [
        ("/x", "/x//", true),
        ("/x/./y", "/x/y", true),
        ("./x", "x", false),
        ("/x/../x", "/x", false),
        ("x", "/x", false),
        ("", "", true),
    ] {
        let m = merge_projects(
            vec![project("f", a, "compose.yml", None)],
            vec![project("l", b, "compose.yml", None)],
        );
        assert_eq!(m.len(), if same { 1 } else { 2 }, "{a} and {b}");
    }
    for (config, path, file) in [
        ("/srv/web/compose.yml", "/srv/web", "compose.yml"),
        ("compose.yml", "", "compose.yml"),
        ("/a/..", "/a", "docker-compose.yml"),
        ("/a/b/.", "/a", "b"),
        ("/", "", "docker-compose.yml"),
    ] {
        let json = format!("[{{\"Name\":\"n\",\"ConfigFiles\":\"{config}\"}}]");
        let l = projects_from_docker_ls(&said(&json));
        assert_eq!((l[0].path.as_str(), l[0].file_name.as_str()), (path, file));
    }
}

#[test]
fn scan_is_enriched_with_the_listing() {
    let mut v = ComposeView::new(Theme::dark(), 0);
    let listed = projects_from_docker_ls(&said(
        r#"[{"Name":"shop","Status":"running(1)","ConfigFiles":"/srv/web/compose.yml"}]"#,
    ));
    let entries = vec![DirEntry { is_file: true, name: Some("compose.yml".to_string()) }];
    v.scan_projects(listed, projects_from_fs("/srv/web", &entries), 1);
    assert_eq!(v.rows.len(), 1);
    assert_eq!(v.rows[0].name, "shop");
    assert_eq!(v.rows[0].path, "/srv/web");
    assert_eq!(v.rows[0].status, Some("running(1)".to_string()));
}

#[test]
fn networks_are_asked_for_by_id() {
    assert_eq!(inspect_args("abc"), vec!["network", "inspect", "abc"]);
    assert_eq!(remove_args("abc"), vec!["network", "rm", "abc"]);
}

#[test]
fn compose_commands_are_run() {
    let args = compose_args("compose.yml", ComposeCommand::Up);
    assert_eq!(args[0], "compose");
    assert!(args.contains(&"up".to_string()) && args.contains(&"-d".to_string()));
    let mut v = ComposeView::new(Theme::dark(), 0);
    v.scan_projects(vec![project("a", "/x", "compose.yml", None)], vec![], 3);
    // the cursor stands nowhere before it is moved
    assert!(matches!(v.on_key(press('s')), ComposeAction::Nothing));
    v.on_key(press('k'));
    match v.on_key(press('s')) {
        ComposeAction::Run(ComposeCommand::Ps, p) => assert_eq!(p.name, "a"),
        _ => panic!("nothing run"),
    }
    v.on_ran(ComposeCommand::Ps, "a", Ok(said("table")));
    assert!(v.has_modal());
    v.on_key(key(KeyCode::Esc));
    assert!(!v.has_modal());
    assert_eq!(editor(Some("vim".to_string())), "vim");
}
