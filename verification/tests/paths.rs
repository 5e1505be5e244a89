use autorun_fs::base;
use autorun_fs::in_autorun;
use autorun_fs::join;
use autorun_fs::relativize;
use autorun_fs::strip_base;
use autorun_fs::FSPath;
use autorun_fs::paths::str_eq;
use autorun_fs::AUTORUN_PATH;
use autorun_fs::BIN_DIR;
use autorun_fs::DUMP_DIR;
use autorun_fs::HOOK_PATH;
use autorun_fs::INCLUDE_DIR;
use autorun_fs::LOG_DIR;
use autorun_fs::PLUGIN_DIR;
use autorun_fs::SETTINGS_PATH;

#[test]
fn join_inserts_single_separator() {
    assert_eq!(join("/home/alice", "autorun"), "/home/alice/autorun");
    assert_eq!(join("", "x"), "/x");
    assert_eq!(join("a", ""), "a/");
}

#[test]
fn base_is_home_joined_with_autorun() {
    assert_eq!(base("/home/alice"), "/home/alice/autorun");
    assert_eq!(base("/root"), "/root/autorun");
}

#[test]
fn in_autorun_is_base_join() {
    let home = "/home/alice";
    let rel = "scripts/a.lua";
    assert_eq!(in_autorun(home, rel), join(&base(home), rel));
    assert_eq!(in_autorun(home, rel), "/home/alice/autorun/scripts/a.lua");
}

#[test]
fn well_known_names() {
    assert_eq!(DUMP_DIR, "lua_dumps");
    assert_eq!(LOG_DIR, "logs");
    assert_eq!(INCLUDE_DIR, "scripts");
    assert_eq!(PLUGIN_DIR, "plugins");
    assert_eq!(BIN_DIR, "bin");
    assert_eq!(AUTORUN_PATH, "autorun.lua");
    assert_eq!(HOOK_PATH, "hook.lua");
    assert_eq!(SETTINGS_PATH, "settings.toml");
}

#[test]
fn str_eq_agrees_with_equality() {
    assert!(str_eq("", ""));
    assert!(str_eq("abc", "abc"));
    assert!(!str_eq("abc", "abd"));
    assert!(!str_eq("abc", "ab"));
    assert!(str_eq("über/pfad", "über/pfad"));
    assert!(!str_eq("über", "uber"));
}

#[test]
fn strip_base_recovers_relative_part() {
    let home = "/home/alice";
    let b = base(home);
    let abs = in_autorun(home, "logs/run.log");
    assert_eq!(strip_base(&abs, &b), Some("logs/run.log".to_string()));
}

#[test]
fn strip_base_rejects_paths_outside_the_root() {
    let b = base("/home/alice");
    assert_eq!(strip_base("/etc/passwd", &b), None);
    assert_eq!(strip_base(&b, &b), None);
    assert_eq!(strip_base("/home/alice/autorunner/x", &b), None);
}

#[test]
fn round_trip_under_base() {
    let home = "/home/alice";
    let b = base(home);
    let abs = "/home/alice/autorun/plugins/p.lua";
    let rel = strip_base(abs, &b).unwrap();
    assert_eq!(in_autorun(home, &rel), abs);
}

#[test]
fn relativize_falls_back_to_the_raw_path() {
    let b = base("/home/alice");
    assert_eq!(relativize("/somewhere/else", &b), "/somewhere/else");
    assert_eq!(relativize("/home/alice/autorun/bin/x", &b), "bin/x");
}

#[test]
fn fspath_wraps_without_validation() {
    let p = FSPath::new("scripts/a.lua".to_string());
    assert_eq!(p.as_str(), "scripts/a.lua");
    assert_eq!(p.clone().into_string(), "scripts/a.lua");
}

#[test]
fn fspath_equality_is_by_value() {
    let a = FSPath::new("logs".to_string());
    let b = FSPath::new("logs".to_string());
    let c = FSPath::new("bin".to_string());
    assert!(a == b);
    assert!(a != c);
}

#[test]
fn fspath_round_trip_through_resolve() {
    let home = "/home/alice";
    let b = base(home);
    let abs = in_autorun(home, "lua_dumps/d.lua");
    let p = FSPath::from_absolute(&abs, &b);
    assert_eq!(p.as_str(), "lua_dumps/d.lua");
    assert_eq!(p.resolve(home), abs);
}
