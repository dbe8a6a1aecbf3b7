use dockrtui::screen::Screen;

fn render(screen: &Screen) -> Vec<String> {
    screen
        .lines
        .iter()
        .map(|row| row.iter().collect::<String>().trim_end().to_string())
        .collect()
}

#[test]
fn carriage_return_overwrites_in_place() {
    let mut s = Screen::new();
    s.feed(b"Downloading 10%\rDownloading 80%");
    assert_eq!(render(&s), vec!["Downloading 80%"]);
}

#[test]
fn shorter_overwrite_leaves_no_tail() {
    // Erase-to-end (\x1b[K) after the carriage return clears the leftover.
    let mut s = Screen::new();
    s.feed(b"Downloading 100%\rDone\x1b[K");
    assert_eq!(render(&s), vec!["Done"]);
}

#[test]
fn cursor_up_rewrites_previous_block() {
    // Mimics compose: print a 2-line block, move the cursor up 2, rewrite.
    let mut s = Screen::new();
    s.feed(b" radarr Pulling\r\n jellyfin Pulling\r\n");
    s.feed(b"\x1b[2A radarr Pulled \x1b[K\r\n jellyfin Pulled \x1b[K\r\n");
    assert_eq!(render(&s), vec![" radarr Pulled", " jellyfin Pulled", ""]);
}

#[test]
fn escape_split_across_feeds() {
    // A CSI sequence arriving in two chunks must still be honoured.
    let mut s = Screen::new();
    s.feed(b"abc\x1b[2"); // incomplete: "...[2"
    s.feed(b"Dxy"); // completes CSI 'D' (cursor left 2), then writes
    // "abc", cursor left 2 -> col 1, write "xy" over "bc"
    assert_eq!(render(&s), vec!["axy"]);
}

#[test]
fn multibyte_split_across_feeds() {
    // The ✔ (U+2714, 3 bytes) is split between two reads.
    let bytes = " ✔ Image ok".as_bytes();
    let split = 2; // mid-way through the ✔
    let mut s = Screen::new();
    s.feed(&bytes[..split]);
    s.feed(&bytes[split..]);
    assert_eq!(render(&s), vec![" ✔ Image ok"]);
}

/// Feeding byte by byte comes to the same as feeding at once.
#[test]
fn pieces_come_to_the_whole() {
    let data = " ✔ one\r\ntwo\x1b[1A\x1b[2Kthree\x1b[31m!\x1b[Jé\tend".as_bytes();
    let mut whole = Screen::new();
    whole.feed(data);
    let mut pieces = Screen::new();
    for b in data {
        pieces.feed(&[*b]);
    }
    assert_eq!(render(&whole), render(&pieces));
}

#[test]
fn other_sequences_leave_no_trace() {
    let mut s = Screen::new();
    s.feed(b"a\x1b[1;32mb\x1b[0mc");
    assert_eq!(render(&s), vec!["abc"]);
}

#[test]
fn invalid_bytes_do_not_stop_the_screen() {
    let mut s = Screen::new();
    s.feed(b"a\xffb");
    let text = render(&s).join("\n");
    assert!(text.starts_with('a') && text.ends_with('b'));
}
