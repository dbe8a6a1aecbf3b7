use dockrtui::containers::shell::{
    escape_for_shell, join_base_name, longest_common_prefix, script_result, simplify_path,
    split_base_and_pattern, Detect, ShellEvent, ShellJob, ShellKind, ShellPopup,
};
use dockrtui::key::{KeyCode, KeyEvent};
use dockrtui::output::CommandOutput;

fn key(code: KeyCode) -> KeyEvent {
    KeyEvent { code, control: false }
}

fn typed(sh: &mut ShellPopup, line: &str) -> ShellEvent {
    for c in line.chars() {
        sh.on_key(key(KeyCode::Char(c)));
    }
    sh.on_key(key(KeyCode::Enter))
}

fn shell() -> ShellPopup {
    ShellPopup::new("0123456789abcdef".to_string(), "web".to_string())
}

fn wrote(out: &str) -> Result<CommandOutput, String> {
    Ok(CommandOutput {
        success: true,
        code: Some(0),
        stdout: out.as_bytes().to_vec(),
        stderr: vec![],
    })
}

fn failed(err: &str) -> Result<CommandOutput, String> {
    Ok(CommandOutput {
        success: false,
        code: Some(2),
        stdout: vec![],
        stderr: err.as_bytes().to_vec(),
    })
}

#[test]
fn arguments_are_escaped() {
    assert_eq!(escape_for_shell(""), "''");
    assert_eq!(escape_for_shell("/usr/lib-1.2_x"), "/usr/lib-1.2_x");
    assert_eq!(escape_for_shell("a b"), "'a b'");
    assert_eq!(escape_for_shell("it's"), "'it'\"'\"'s'");
    assert_eq!(escape_for_shell("é"), "'é'");
}

#[test]
fn paths_are_made_simple() {
    assert_eq!(simplify_path(""), "/");
    assert_eq!(simplify_path("/a/./b/../c//"), "/a/c");
    assert_eq!(simplify_path("/../.."), "/");
    assert_eq!(simplify_path("a/b"), "a/b");
    assert_eq!(simplify_path(".."), "/");
    for p in ["/a/../b", "x/./y", "/", ".."] {
        assert_eq!(simplify_path(&simplify_path(p)), simplify_path(p));
    }
}

#[test]
fn bases_and_names_are_joined() {
    assert_eq!(join_base_name(".", "x"), "x");
    assert_eq!(join_base_name("/", "/x"), "/x");
    assert_eq!(join_base_name("/a/", "//x"), "/a/x");
}

#[test]
fn arguments_are_split() {
    let none = None;
    let home = Some("/home/me".to_string());
    let split = |a: &str, h: &Option<String>| split_base_and_pattern(a, h);
    assert_eq!(split("", &none), (".".to_string(), "".to_string()));
    assert_eq!(split("us", &none), (".".to_string(), "us".to_string()));
    assert_eq!(split("/us", &none), (".".to_string(), "/us".to_string()));
    assert_eq!(split("/usr/li", &none), ("/usr".to_string(), "li".to_string()));
    assert_eq!(split("/usr/", &none), ("/usr/".to_string(), "".to_string()));
    assert_eq!(split("~/pr", &home), ("/home/me".to_string(), "pr".to_string()));
    assert_eq!(split("~", &none), (".".to_string(), "/root".to_string()));
}

#[test]
fn common_prefix_is_found() {
    let l = |v: &[&str]| v.iter().map(|s| s.to_string()).collect::<Vec<_>>();
    assert_eq!(longest_common_prefix(&l(&[])), "");
    assert_eq!(longest_common_prefix(&l(&["abc"])), "abc");
    assert_eq!(longest_common_prefix(&l(&["abcd", "abxy", "abz"])), "ab");
    assert_eq!(longest_common_prefix(&l(&["a", "b"])), "");
}

#[test]
fn commands_run_where_cd_led() {
    let mut sh = shell();
    let (job, script) = match typed(&mut sh, "cd usr/../var") {
        ShellEvent::Exec { job, script } => (job, script),
        _ => panic!("nothing to run"),
    };
    assert_eq!(script, "cd /var && pwd");
    sh.finish(job, wrote("/var\n"));
    assert_eq!(sh.cwd, "/var");
    match typed(&mut sh, "  ls -l ") {
        ShellEvent::Exec { job: ShellJob::Run, script } => {
            assert_eq!(script, "cd /var && ls -l");
            assert!(sh.running);
            sh.finish(ShellJob::Run, wrote("a\r\nb\n"));
        }
        _ => panic!("nothing to run"),
    }
    assert!(!sh.running);
    let n = sh.lines.len();
    assert_eq!(sh.lines[n - 4], "web:/var$ ls -l");
    assert_eq!(&sh.lines[n - 3..], &["a", "b", ""]);
    assert_eq!(sh.cwd, "/var");
}

#[test]
fn cd_that_fails_stays() {
    let mut sh = shell();
    match typed(&mut sh, "cd /nowhere") {
        ShellEvent::Exec { job, .. } => sh.finish(job, Err("no".to_string())),
        _ => panic!("nothing to run"),
    }
    assert_eq!(sh.cwd, "/");
    assert_eq!(sh.lines.last().unwrap(), "cd: /nowhere: no such file or directory");
    // a check that runs and fails is no better
    match typed(&mut sh, "cd /nope") {
        ShellEvent::Exec { job, script } => {
            assert_eq!(script, "cd /nope && pwd");
            sh.finish(job, failed("sh: cd: can't cd to /nope"));
        }
        _ => panic!("nothing to run"),
    }
    assert_eq!((sh.cwd.as_str(), sh.prev_cwd.as_ref()), ("/", None));
    assert_eq!(sh.lines.last().unwrap(), "cd: /nope: no such file or directory");
}

#[test]
fn cd_goes_back_and_forth() {
    let mut sh = shell();
    typed(&mut sh, "cd -");
    assert_eq!(sh.lines[1], "cd: previous directory not set");
    typed(&mut sh, "cd");
    assert_eq!(sh.cwd, "/root");
    typed(&mut sh, "cd -");
    assert_eq!(sh.cwd, "/");
    typed(&mut sh, "cd -");
    assert_eq!(sh.cwd, "/root");
}

#[test]
fn history_comes_back() {
    let mut sh = shell();
    for line in ["help", "help", "clear"] {
        typed(&mut sh, line);
    }
    assert_eq!(sh.history, vec!["help", "clear"]);
    sh.on_key(key(KeyCode::Up));
    assert_eq!(sh.input, "clear");
    sh.on_key(key(KeyCode::Up));
    sh.on_key(key(KeyCode::Up));
    assert_eq!(sh.input, "help");
    sh.on_key(key(KeyCode::Down));
    assert_eq!(sh.input, "clear");
    sh.on_key(key(KeyCode::Down));
    assert_eq!(sh.input, "");
}

#[test]
fn exit_and_esc_close() {
    let mut sh = shell();
    assert!(matches!(typed(&mut sh, "exit"), ShellEvent::Close));
    assert!(matches!(sh.on_key(key(KeyCode::Esc)), ShellEvent::Close));
    assert!(matches!(sh.on_key(key(KeyCode::Char('q'))), ShellEvent::Close));
}

#[test]
fn one_directory_is_completed() {
    let mut sh = shell();
    for c in "cd us".chars() {
        sh.on_key(key(KeyCode::Char(c)));
    }
    let (job, script) = match sh.on_key(key(KeyCode::Tab)) {
        ShellEvent::Exec { job, script } => (job, script),
        _ => panic!("nothing to run"),
    };
    assert_eq!(
        script,
        "cd / 2>/dev/null || exit 0; cd . 2>/dev/null || exit 0; for d in us*; do [ -d \"$d\" ] && printf '%s\\n' \"$d\"; done"
    );
    sh.finish(job, wrote("./usr\n"));
    assert_eq!(sh.input, "cd usr/");
}

#[test]
fn many_directories_go_round() {
    let mut sh = shell();
    for c in "cd x".chars() {
        sh.on_key(key(KeyCode::Char(c)));
    }
    match sh.on_key(key(KeyCode::Tab)) {
        ShellEvent::Exec { job, .. } => sh.finish(job, wrote("xb\nxa\n")),
        _ => panic!("nothing to run"),
    }
    assert_eq!(sh.input, "cd xa/");
    assert_eq!(sh.lines.last().unwrap(), "> xa  xb");
    // each suggestion takes the place of the one before
    for input in ["cd xb/", "cd xa/", "cd xb/"] {
        assert!(matches!(sh.on_key(key(KeyCode::Tab)), ShellEvent::Nothing));
        assert_eq!(sh.input, input);
    }
    sh.on_key(key(KeyCode::BackTab));
    sh.on_key(key(KeyCode::BackTab));
    assert_eq!(sh.input, "cd xa/");
}

#[test]
fn suggestions_stay_in_their_directory() {
    let mut sh = shell();
    for c in "cd /usr/l".chars() {
        sh.on_key(key(KeyCode::Char(c)));
    }
    match sh.on_key(key(KeyCode::Tab)) {
        ShellEvent::Exec { job, .. } => sh.finish(job, wrote("lib\nlib64\n")),
        _ => panic!("nothing to run"),
    }
    // what the names share is put first
    assert_eq!(sh.input, "cd /usr/lib");
    for input in ["cd /usr/lib/", "cd /usr/lib64/", "cd /usr/lib/"] {
        sh.on_key(key(KeyCode::Tab));
        assert_eq!(sh.input, input);
    }
}

#[test]
fn scripts_are_judged_by_their_job() {
    let cd = ShellJob::Cd { arg: "x".to_string(), target: "/x".to_string() };
    assert_eq!(script_result(&cd, wrote("/x\n")), Ok("/x\n".to_string()));
    assert_eq!(script_result(&cd, failed("no")), Err("no".to_string()));
    assert_eq!(script_result(&ShellJob::Run, failed("no")), Ok("no".to_string()));
    assert_eq!(script_result(&ShellJob::Run, Err("gone".to_string())), Err("gone".to_string()));
}

#[test]
fn interpreter_is_looked_for() {
    let mut sh = shell();
    assert!(matches!(sh.detect_shell(), Detect::Probe(ShellKind::Sh)));
    assert!(matches!(
        sh.on_probe(ShellKind::Sh, false),
        Detect::Probe(ShellKind::Bash)
    ));
    assert!(matches!(sh.on_probe(ShellKind::Bash, true), Detect::AskHome));
    sh.on_home(Ok(" /home/me\n".to_string()));
    assert_eq!(sh.home, Some("/home/me".to_string()));
    assert_eq!(
        sh.exec_args("ls"),
        vec!["exec", "-i", "0123456789abcdef", "bash", "-lc", "ls"]
    );
    assert_eq!(sh.title(), "Shell — web (0123456789ab)");
}

#[test]
fn control_keys_clear() {
    let mut sh = shell();
    sh.on_key(key(KeyCode::Char('x')));
    sh.on_key(KeyEvent { code: KeyCode::Char('u'), control: true });
    assert_eq!(sh.input, "");
    sh.on_key(KeyEvent { code: KeyCode::Char('l'), control: true });
    assert!(sh.lines.is_empty());
}
