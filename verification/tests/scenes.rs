use dockrtui::app::{
    init_events, next_route, poll_timeout, quits, size_error, tick_is_due, InitEvent, Route,
};
use dockrtui::containers::actions::ActionKind;
use dockrtui::containers::progress::{bar_room, fancy_bar_line, shine_boost};
use dockrtui::containers::rocket::{
    compose_scene, count_stars, draw_chances, draw_places, draw_steps, flight_rows,
    render_rocket_scene_vertical, Chances, Flight,
};
use dockrtui::docker::{log_text, resolve_docker_socket_path, socket_candidates};
use dockrtui::geometry::{center, overlay, Rect};
use dockrtui::key::{KeyCode, KeyEvent};
use dockrtui::splash::{
    group_row, lcg, meteor_flies, paint_sky, render_big_banner, render_space_scene, splash_areas, Mist,
    SkyPaint, SplashEvent, SplashScreen,
};
use dockrtui::theme::{Color, Theme};
use rand::rngs::StdRng;
use rand::{Rng, SeedableRng};

fn key(code: KeyCode) -> KeyEvent {
    KeyEvent { code, control: false }
}

/* ---- the start ---- */

#[test]
fn splash_closes_when_all_is_done() {
    let mut s = SplashScreen::new(Theme::dark(), 1);
    s.on_tick(&vec![SplashEvent::Step { permille: 5000, label: "x".to_string() }], 0);
    assert_eq!((s.target, s.label.as_str()), (1000, "x"));
    assert!(!s.is_ready_to_close(true, 10_000));
    s.on_tick(&vec![SplashEvent::Done], 100);
    assert!(!s.is_ready_to_close(true, 499));
    assert!(s.is_ready_to_close(true, 500));
    assert!(!s.is_ready_to_close(false, 500));
    s.on_key(key(KeyCode::Enter));
    assert!(s.is_ready_to_close(true, 100));
}

#[test]
fn splash_stays_after_a_failure() {
    let mut s = SplashScreen::new(Theme::dark(), 1);
    s.on_tick(
        &vec![SplashEvent::Done, SplashEvent::Fail("list: no".to_string())],
        0,
    );
    s.on_key(key(KeyCode::Esc));
    assert!(!s.is_ready_to_close(true, 9_999));
    let foot: String = s.foot_line().iter().map(|p| p.text.as_str()).collect();
    assert_eq!(foot, " init failed: list: no  • press q to quit");
}

#[test]
fn start_is_told_step_by_step() {
    let text = |ev: InitEvent| {
        init_events(&ev)
            .into_iter()
            .map(|e| match e {
                SplashEvent::Step { permille, label } => format!("{permille} {label}"),
                SplashEvent::Done => "done".to_string(),
                SplashEvent::Fail(m) => m,
            })
            .collect::<Vec<_>>()
    };
    assert_eq!(text(InitEvent::Begun), vec!["100 Connect to Docker…"]);
    assert_eq!(text(InitEvent::Connected), vec!["450 Warm-up containers…"]);
    assert_eq!(text(InitEvent::Listed), vec!["700 Build UI state…"]);
    assert_eq!(text(InitEvent::Built), vec!["950 Final touches…", "done"]);
    assert_eq!(text(InitEvent::ConnectFailed("e".to_string())), vec!["docker connect: e"]);
    assert_eq!(text(InitEvent::ListFailed("e".to_string())), vec!["list: e"]);
    assert_eq!(text(InitEvent::BuildFailed("e".to_string())), vec!["ui: e"]);
}

#[test]
fn loop_keeps_its_rules() {
    assert_eq!(size_error(70, 28), None);
    assert_eq!(
        size_error(69, 40),
        Some("Error: terminal size should be at least 70x28, current is 69x40".to_string())
    );
    assert!(quits(Route::Splash, key(KeyCode::Char('q')), true));
    assert!(!quits(Route::Main, key(KeyCode::Char('q')), true));
    assert!(quits(Route::Main, key(KeyCode::Char('q')), false));
    assert!(!quits(Route::Main, key(KeyCode::Esc), false));
    assert_eq!(next_route(Route::Splash, true, false), Route::Splash);
    assert_eq!(next_route(Route::Splash, true, true), Route::Main);
    assert_eq!(poll_timeout(20), 100);
    assert_eq!(poll_timeout(500), 0);
    assert!(tick_is_due(120) && !tick_is_due(119));
}

#[test]
fn splash_has_its_places() {
    let a = splash_areas(Rect { x: 0, y: 0, width: 100, height: 40 }).unwrap();
    assert_eq!(a.overlay, Rect { x: 10, y: 4, width: 80, height: 32 });
    assert_eq!(a.version, Rect { x: 82, y: 4, width: 8, height: 1 });
    assert_eq!(a.banner.height, 8);
    assert!(splash_areas(Rect { x: 0, y: 0, width: 60, height: 40 }).is_none());
}

#[test]
fn banner_is_drawn_and_cut() {
    let rows = render_big_banner("di", 100);
    assert_eq!(rows.len(), 8);
    let text = |r: &Vec<bool>| r.iter().map(|b| if *b { '#' } else { '.' }).collect::<String>();
    assert_eq!(text(&rows[0]), "######....########");
    assert_eq!(text(&rows[2]), "##....##.....##...");
    assert_eq!(text(&rows[7]), "..................");
    assert_eq!(text(&render_big_banner("di", 3)[0]), "###");
    assert!(render_big_banner("", 9)[0].is_empty());
}

#[test]
fn stars_follow_from_the_seed() {
    assert_eq!(lcg(0), 1013904223);
    assert_eq!(lcg(u64::MAX), 1013904223u64.wrapping_sub(1664525));
    let paint = |meteor| SkyPaint {
        mists: vec![Mist { y: 1, mid: -5, thickness: 6, color: Color::Blue }],
        tints: vec![Color::Green; 30],
        meteor,
    };
    let a = paint_sky(30, 8, 3, 42, &paint(None));
    let b = paint_sky(30, 8, 3, 42, &paint(None));
    assert_eq!(a, b);
    assert_eq!((a.len(), a[0].len()), (8, 30));
    let stars = a.iter().flatten().filter(|c| "·•✦".contains(c.0)).count();
    assert!(stars > 0 && stars <= 20);
    // mist fills the first two columns of its row, where there is no star
    for x in 0..2 {
        assert!(a[1][x].0 == '▒' || "·•✦".contains(a[1][x].0));
    }
    assert!(a[1][2].0 != '▒');
    assert!(meteor_flies(30, 8, 3) && !meteor_flies(12, 8, 3) && !meteor_flies(30, 8, 24));
    let m = paint_sky(30, 8, 3, 42, &paint(Some((2, 28, Color::Red))));
    assert_eq!(m[2][28], ('✱', Some(Color::Red)));
    assert_eq!(m[2][29].0, '•');
    let lines = render_space_scene(30, 8, 3, 42, &paint(None));
    for (row, line) in a.iter().zip(&lines) {
        let want: String = row.iter().map(|c| c.0).collect();
        let got: String = line.iter().map(|s| s.text.as_str()).collect();
        assert_eq!(got, want);
    }
}

#[test]
fn cells_of_one_colour_are_one_run() {
    let row = vec![
        ('a', None),
        ('b', None),
        ('c', Some(Color::Red)),
        ('d', Some(Color::Red)),
        ('e', None),
    ];
    let spans = group_row(&row);
    let texts: Vec<&str> = spans.iter().map(|s| s.text.as_str()).collect();
    assert_eq!(texts, vec!["ab", "cd", "e"]);
    assert_eq!(spans[1].style.fg, Some(Color::Red));
    assert!(group_row(&vec![]).is_empty());
}

/* ---- the bar and the rocket ---- */

#[test]
fn bar_fills_from_the_left() {
    assert_eq!((bar_room(10), bar_room(1)), (8, 0));
    let spans = fancy_bar_line(&vec![Color::Red; 4], 3, 75);
    let text: String = spans.iter().map(|s| s.text.as_str()).collect();
    assert_eq!(text, " ███░  75% ");
    assert_eq!(spans[4].style.fg, Some(Color::Rgb(40, 42, 46)));
    assert_eq!(shine_boost(3, 10, 6), 3);
    assert_eq!(shine_boost(1, 10, 6), 1);
    assert_eq!(shine_boost(0, 10, 6), 0);
    assert_eq!(shine_boost(0, 0, 6), 3);
}

fn flight(top: i32) -> Flight {
    Flight { shifts: (0, 0, 0), top, wobble: 0, flame: 3, puffs: 2, spread: 10 }
}

fn no_chances() -> Chances {
    Chances { far: vec![], middle: vec![], near: vec![], steps: vec![] }
}

#[test]
fn rocket_stands_before_it_starts() {
    let (stand, gone) = flight_rows(20);
    assert_eq!((stand, gone), (7, -21));
    let scene = compose_scene(ActionKind::Starting, 20, 20, flight(stand), &no_chances(), 0);
    let rows: Vec<&str> = scene.split('\n').collect();
    assert_eq!(rows.len(), 20);
    assert!(rows.iter().all(|r| r.chars().count() == 20));
    assert_eq!(rows[7].trim(), "/\\");
    assert_eq!(rows[13], "      /|####|\\      ");
    assert_eq!(rows[18], "‾ ".repeat(10));
    assert!(rows[17].contains("||"));
}

#[test]
fn rocket_leaves_the_scene() {
    let (_, gone) = flight_rows(20);
    let scene = compose_scene(ActionKind::Starting, 20, 20, flight(gone), &no_chances(), 0);
    assert!(!scene.contains('#'));
    assert!(scene.contains("‾ ‾"));
}

#[test]
fn stars_drift_and_stay_above_the_ground() {
    let c = Chances {
        far: vec![(0, 0), (1, 19)],
        middle: vec![(2, 3)],
        near: vec![],
        steps: vec![],
    };
    let f = Flight { shifts: (2, -4, 0), top: -40, wobble: 0, flame: 0, puffs: 0, spread: 0 };
    let scene = compose_scene(ActionKind::Stopping, 20, 20, f, &c, 0);
    let rows: Vec<Vec<char>> = scene.split('\n').map(|r| r.chars().collect()).collect();
    assert_eq!(rows[2][0], '·');
    // 19 + 2 comes round to row 1
    assert_eq!(rows[1][1], '·');
    // 3 - 4 comes round to row 19, below the ground
    assert!(rows.iter().flatten().all(|c| *c != '˙'));
}

#[test]
fn landing_raises_dust() {
    let (stand, _) = flight_rows(20);
    let scene = compose_scene(ActionKind::Stopping, 20, 20, flight(stand), &no_chances(), 0);
    let rows: Vec<&str> = scene.split('\n').collect();
    assert!(rows[17].contains('=') && rows[17].contains('~'));
}

#[test]
fn stars_and_smoke_come_from_their_seeds() {
    let c = draw_chances(30, 20, flight(0), 5);
    let mut rng = StdRng::seed_from_u64(0x51DE + 10);
    for place in &c.far {
        let x: usize = rng.random_range(0..30);
        let y: usize = rng.random_range(0..20);
        assert_eq!(*place, (x, y));
    }
    let mut rng = StdRng::seed_from_u64(0x51DE + 6);
    let first: (usize, usize) = (rng.random_range(0..30), rng.random_range(0..20));
    assert_eq!(c.middle[0], first);
    let mut rng = StdRng::seed_from_u64(0x51DE + 4);
    let first: (usize, usize) = (rng.random_range(0..30), rng.random_range(0..20));
    assert_eq!(c.near[0], first);
    let mut rng = StdRng::seed_from_u64(0xA115A10CE + 5);
    for step in &c.steps {
        assert_eq!(*step, rng.random_range(-3i32..=3i32));
    }
}

#[test]
fn chance_stays_within_bounds() {
    assert_eq!(count_stars(10, 10, 22), 10);
    assert_eq!(count_stars(100, 50, 22), 227);
    let places = draw_places(0x51DE, 500, 7, 3);
    assert_eq!(places.len(), 500);
    assert!(places.iter().all(|p| p.0 < 7 && p.1 < 3));
    assert!(places.iter().any(|p| *p != places[0]));
    let steps = draw_steps(9, 200);
    assert!(steps.iter().all(|s| (-3..=3).contains(s)));
    assert!(steps.iter().any(|s| *s != steps[0]));
    let c = draw_chances(30, 20, flight(0), 5);
    assert_eq!((c.far.len(), c.middle.len(), c.near.len(), c.steps.len()), (27, 17, 11, 2));
    let scene = render_rocket_scene_vertical(ActionKind::Starting, 30, 20, flight(7), 5);
    assert_eq!(scene.split('\n').count(), 20);
    assert_eq!(render_rocket_scene_vertical(ActionKind::Starting, 0, 20, flight(7), 5), "");
}

/* ---- places ---- */

#[test]
fn boxes_stand_in_the_middle() {
    let area = Rect { x: 1, y: 2, width: 100, height: 40 };
    assert_eq!(center(area, 50, 10), Some(Rect { x: 26, y: 17, width: 50, height: 10 }));
    assert_eq!(center(area, 101, 10), None);
    assert_eq!(overlay(area, 3, 4, 40, 12), Some(Rect { x: 13, y: 7, width: 75, height: 30 }));
    assert_eq!(overlay(Rect { x: 0, y: 0, width: 30, height: 40 }, 3, 4, 40, 12), None);
}

/* ---- the engine ---- */

#[test]
fn sockets_are_looked_for_in_order() {
    let all = socket_candidates(Some("unix:///tmp/d.sock".to_string()), Some(1000));
    assert_eq!(
        all,
        vec!["/tmp/d.sock", "/run/user/1000/docker.sock", "/var/run/docker.sock"]
    );
    assert_eq!(socket_candidates(Some(String::new()), None), vec!["/var/run/docker.sock"]);
    assert_eq!(socket_candidates(None, None), vec!["/var/run/docker.sock"]);
    assert_eq!(socket_candidates(Some("/x".to_string()), None)[0], "/x");
    let resolve = |there: Vec<bool>| {
        resolve_docker_socket_path(Some("unix:///tmp/d.sock".to_string()), Some(1000), &there)
    };
    assert_eq!(
        resolve(vec![false, true, true]),
        Ok("/run/user/1000/docker.sock".to_string())
    );
    assert_eq!(
        resolve(vec![true, true, true]),
        Ok("/tmp/d.sock".to_string())
    );
    assert_eq!(
        resolve(vec![false, false, false]),
        Err("No Docker socket found. Tried DOCKER_HOST, /run/user/$UID/docker.sock and /var/run/docker.sock".to_string())
    );
}

#[test]
fn no_socket_stands_in_for_an_address() {
    let host = || Some("tcp://10.0.0.5:2375".to_string());
    assert!(socket_candidates(host(), Some(1000)).is_empty());
    assert_eq!(
        resolve_docker_socket_path(host(), Some(1000), &vec![]),
        Err("DOCKER_HOST names no socket: tcp://10.0.0.5:2375".to_string())
    );
}

#[test]
fn log_bytes_become_text() {
    assert_eq!(log_text(Some(b"ok \xff")), "ok \u{fffd}");
    assert_eq!(log_text(None), "");
}
