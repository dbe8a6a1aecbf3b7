use std::collections::VecDeque;

use dockrtui::chart::{
    card_areas, chips_now_avg_peak, cpu_title, mem_title, multiline_bar_chart, neo_sparkline_line, net_title,
    stats_areas, to_rgb, Point,
};
use dockrtui::geometry::Rect;
use dockrtui::json::{self, Json};
use dockrtui::logs::Follow;
use dockrtui::stats::{net_totals_bytes, trim, CpuBasis, StatsPane};
use dockrtui::theme::{Color, Theme};

fn sample(cpu: u64, rx: u64) -> Json {
    let text = format!(
        r#"{{"cpu_stats":{{"online_cpus":4,"cpu_usage":{{"total_usage":{cpu},"percpu_usage":[1,2]}},"system_cpu_usage":1000}},
            "precpu_stats":{{"cpu_usage":{{"total_usage":0}}}},
            "memory_stats":{{"usage":500,"limit":1000,"stats":{{"inactive_file":0,"cache":120}}}},
            "networks":{{"eth0":{{"rx_bytes":{rx},"tx_bytes":7}},"eth1":{{"rx_bytes":1}}}}}}"#
    );
    json::read(&text).unwrap()
}

#[test]
fn json_is_read() {
    assert!(json::read("{").is_none());
    let j = json::read(r#"{"a":{"b":[1,-2,"x"]},"t":"text"}"#).unwrap();
    assert_eq!(j.member_text("t"), "text");
    assert_eq!(j.member_text("a"), "");
    assert!(j.at(&["a", "b"]).is_some());
    assert!(j.at(&["a", "c"]).is_none());
    assert_eq!(j.whole_at(&["t"]), 0);
    let v: serde_json::Value = serde_json::from_str(r#"{"n":3}"#).unwrap();
    assert_eq!(Json::of(&v).whole_at(&["n"]), 3);
}

#[test]
fn samples_are_read() {
    let mut p = StatsPane::new();
    let a = p.ingest(&sample(100, 10));
    assert_eq!(a.ncpu, 4);
    assert_eq!((a.usage, a.cached, a.limit), (500, 120, 1000));
    assert_eq!(a.cpu, CpuBasis::Unknown);
    assert_eq!(a.net, None);
    let b = p.ingest(&sample(160, 25));
    assert_eq!(b.cpu, CpuBasis::Elapsed { delta: 60 });
    assert_eq!(b.net, Some((15, 0)));
    assert!(!b.cpu_unchanged);
    // a counter that went back is no traffic
    let c = p.ingest(&sample(160, 3));
    assert_eq!(c.net, Some((0, 0)));
    assert!(c.cpu_unchanged);
}

#[test]
fn host_time_is_preferred() {
    let j = json::read(
        r#"{"cpu_stats":{"cpu_usage":{"total_usage":9,"percpu_usage":[1,2,3]},"system_cpu_usage":50},
            "precpu_stats":{"cpu_usage":{"total_usage":4},"system_cpu_usage":20},
            "memory_stats":{"stats":{"inactive_file":5,"cache":9}}}"#,
    )
    .unwrap();
    let r = StatsPane::new().ingest(&j);
    assert_eq!(r.ncpu, 3);
    assert_eq!(
        r.cpu,
        CpuBasis::Host { total: 9, pre_total: 4, system: 50, pre_system: 20 }
    );
    assert_eq!(r.cached, 5);
    assert_eq!(StatsPane::new().ingest(&json::read("{}").unwrap()).ncpu, 1);
}

#[test]
fn traffic_is_summed_without_overflow() {
    let j = json::read(
        r#"{"networks":{"a":{"rx_bytes":18446744073709551615},"b":{"rx_bytes":5,"tx_bytes":2}}}"#,
    )
    .unwrap();
    assert_eq!(net_totals_bytes(&j), (u64::MAX, 2));
    assert_eq!(net_totals_bytes(&json::read("[]").unwrap()), (0, 0));
}

#[test]
fn hidden_statistics_read_nothing() {
    let mut p = StatsPane::new();
    let (reset, f) = p.attach("abc");
    assert!(reset && matches!(f, Follow::Keep));
    assert!(matches!(p.on_tick(), Follow::Keep));
    assert!(matches!(p.set_visible(true), Follow::Start(_)));
    assert!(p.on_samples(&vec![sample(1, 1), sample(2, 2)], false).is_some());
    assert_eq!(p.last.unwrap().cpu, 2);
    assert!(p.on_samples(&vec![], true).is_none());
    assert!(!p.streaming);
    assert!(matches!(p.on_tick(), Follow::Start(_)));
    assert!(matches!(p.set_visible(false), Follow::Stop));
    assert!(p.on_samples(&vec![sample(3, 3)], false).is_none());
    let (reset, _) = p.attach("abc");
    assert!(!reset);
}

#[test]
fn series_are_trimmed() {
    let mut d: VecDeque<u32> = (0..10).collect();
    trim(&mut d, 4);
    assert_eq!(d, vec![6, 7, 8, 9]);
    trim(&mut d, 9);
    assert_eq!(d.len(), 4);
    trim(&mut d, 0);
    assert!(d.is_empty());
}

#[test]
fn bars_stand_on_the_ground() {
    let hist = vec![
        Point { height: 5, color: Color::Red },
        Point { height: 1, color: Color::Red },
        Point { height: 2, color: Color::Red },
    ];
    let lines = multiline_bar_chart(&hist, 4, 2);
    let rows: Vec<String> = lines
        .iter()
        .map(|l| l.iter().map(|s| s.text.as_str()).collect())
        .collect();
    assert_eq!(rows, vec![" █ █", " ███"]);
    let narrow = multiline_bar_chart(&hist, 2, 1);
    assert_eq!(narrow[0].len(), 2);
    assert_eq!(multiline_bar_chart(&hist, 0, 3).len(), 1);
}

#[test]
fn sparkline_ends_with_the_newest() {
    let hist: Vec<Point> = (0..9).map(|h| Point { height: h, color: Color::Blue }).collect();
    let line: String = neo_sparkline_line(&hist, 10).iter().map(|s| s.text.as_str()).collect();
    assert_eq!(line, " ▁▂▃▄▅▆▇██");
    let cut: String = neo_sparkline_line(&hist, 3).iter().map(|s| s.text.as_str()).collect();
    assert_eq!(cut, "▇██");
}

#[test]
fn cards_have_headings() {
    let t = Theme::dark();
    let text = |l: Vec<dockrtui::theme::Span>| l.into_iter().map(|s| s.text).collect::<String>();
    assert_eq!(
        text(cpu_title("1.0%", "4.0%", 4, t)),
        " \u{f4bc}  CPU  1.0% /core  (total 4.0%)  (4 cores)"
    );
    assert_eq!(
        text(mem_title("5", Some("10".to_string()), t)),
        " \u{e266}  MEM  5 / 10 MiB"
    );
    assert_eq!(text(mem_title("5", None, t)), " \u{e266}  MEM  5 MiB");
    assert_eq!(text(net_title(true, "1 B/s", t)), " \u{f433}  NET↓  1 B/s");
    assert_eq!(
        text(chips_now_avg_peak("1", "2", "3", Some("(p95 9)".to_string()), t)),
        "  Now 1 • Avg 2 • Peak 3  (p95 9)"
    );
}

#[test]
fn cards_need_room() {
    assert!(stats_areas(Rect { x: 0, y: 0, width: 100, height: 9 }).is_none());
    let a = stats_areas(Rect { x: 0, y: 0, width: 100, height: 50 }).unwrap();
    assert!(a.pane.width >= 90 && a.pane.height >= 40);
    assert!(a.cpu.x < a.mem.x && a.cpu.y < a.rx.y);
    assert!(card_areas(Rect { x: 0, y: 0, width: 23, height: 9 }).is_none());
    let (head, graph) = card_areas(Rect { x: 0, y: 0, width: 40, height: 10 }).unwrap();
    assert_eq!((head.height, graph.height), (1, 7));
}

#[test]
fn colours_have_parts() {
    assert_eq!(to_rgb(Color::Rgb(1, 2, 3)), (1, 2, 3));
    assert_eq!(to_rgb(Color::DarkGray), (64, 64, 64));
    assert_eq!(to_rgb(Color::Cyan), (0, 255, 255));
}
