use dockrtui::units;

fn by_float(bytes: i64) -> String {
    let mut v = bytes.max(0) as f64;
    let names = ["B", "KiB", "MiB", "GiB", "TiB"];
    let mut i = 0;
    while v >= 1024.0 && i + 1 < names.len() {
        v /= 1024.0;
        i += 1;
    }
    if i == 0 {
        format!("{:.0} {}", v, names[i])
    } else {
        format!("{:.1} {}", v, names[i])
    }
}

#[test]
fn sizes_are_written_with_one_decimal() {
    assert_eq!(units::human_size(0), "0 B");
    assert_eq!(units::human_size(-5), "0 B");
    assert_eq!(units::human_size(1023), "1023 B");
    assert_eq!(units::human_size(1024), "1.0 KiB");
    assert_eq!(units::human_size(1536), "1.5 KiB");
    assert_eq!(units::human_size(5 * 1024 * 1024 * 1024), "5.0 GiB");
}

#[test]
fn sizes_agree_with_floating_point() {
    let mut x: u64 = 88172645463325252;
    for _ in 0..20_000 {
        x ^= x << 13;
        x ^= x >> 7;
        x ^= x << 17;
        let n = (x >> (x % 50)) as i64;
        assert_eq!(units::human_size(n), by_float(n), "{n}");
    }
    for unit in [1i64 << 10, 1 << 20, 1 << 30, 1 << 40] {
        for tenth in 0..400i64 {
            for d in -2..3i64 {
                let n = unit * tenth / 20 + d;
                assert_eq!(units::human_size(n), by_float(n), "{n}");
            }
        }
    }
}

#[test]
fn ages_are_told_in_two_units() {
    assert_eq!(units::format_age(0, 100), "-");
    assert_eq!(units::format_age(-3, 100), "-");
    assert_eq!(units::format_age(1_000, 1_000 + 59), "0m");
    assert_eq!(units::format_age(1_000, 1_000 + 3_600 * 2 + 60 * 5), "2h 5m");
    assert_eq!(units::format_age(1_000, 1_000 + 86_400 * 3 + 3_600 * 4 + 59), "3d 4h");
    assert_eq!(units::format_age(2_000, 1_000), "0m");
}

#[test]
fn creation_is_told_with_its_date() {
    assert_eq!(units::format_created_full(0, 10), "-");
    assert_eq!(
        units::format_created_full(1_700_000_000, 1_700_000_000 + 86_400),
        "2023-11-14 (1d 0h)"
    );
    // beyond the years that the calendar knows only the age is left
    assert_eq!(units::format_created_full(i64::MAX, 5), "0m");
}
