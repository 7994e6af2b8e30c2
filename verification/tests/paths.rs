use acpx_rs::paths::{
    default_home_dir, default_home_name, file_kind, file_stem, has_extension, home_dir_under, join_path, safe_name,
    FileKind, SessionPaths, UserHome,
};
use std::path::Path;

#[test]
fn session_names_become_safe() {
    assert_eq!(safe_name("oc-gemini_1346.a"), "oc-gemini_1346.a");
    assert_eq!(safe_name("../a b/\u{e9}"), ".._a_b__");
    assert_eq!(safe_name(""), "");
    assert_eq!(safe_name(&safe_name("x/y z")), safe_name("x/y z"));
}

#[test]
fn joins_paths_as_the_standard_library_does() {
    for base in ["", "/", "a", "/a", "/a/", "a//", "."] {
        for leaf in ["b", "b/c", "/b", "", "..", "/"] {
            let expected = Path::new(base).join(leaf);
            assert_eq!(join_path(base, leaf), expected.to_str().unwrap(), "{base} {leaf}");
        }
    }
}

#[test]
fn files_lie_under_the_home_directory() {
    let paths = SessionPaths::new("/h");
    assert_eq!(paths.root, "/h");
    assert_eq!(paths.sessions_dir, "/h/sessions");
    assert_eq!(paths.sockets_dir, "/h/sockets");
    assert_eq!(paths.logs_dir, "/h/logs");
    assert_eq!(paths.ensure_dirs(), ["/h/sessions", "/h/sockets", "/h/logs"]);
    assert_eq!(paths.record_path("demo"), "/h/sessions/demo.json");
    assert_eq!(paths.socket_path("demo"), "/h/sockets/demo.sock");
    assert_eq!(paths.log_path("demo"), "/h/logs/demo.log");
    assert_eq!(paths.record_path("../../etc/passwd"), "/h/sessions/.._.._etc_passwd.json");
    assert_eq!(paths.record_path(""), "/h/sessions/.json");
    assert_eq!(paths.record_path("a b"), paths.record_path("a/b"));
    assert_ne!(paths.record_path("ab"), paths.record_path("a_b"));
}

#[test]
fn names_below_the_home_directory() {
    let names = SessionPaths::new("");
    assert_eq!(names.ensure_dirs(), ["sessions", "sockets", "logs"]);
    assert_eq!(names.record_path("demo"), "sessions/demo.json");
    assert_eq!(Path::new("/h").join(names.socket_path("demo")), Path::new("/h/sockets/demo.sock"));
}

#[test]
fn the_home_directory_has_a_default() {
    let under = |home: &str| home_dir_under(UserHome::Known(home.to_string()));
    assert_eq!(under("/home/u").as_deref(), Some("/home/u/.acpx-rs"));
    assert_eq!(under("/").as_deref(), Some("/.acpx-rs"));
    assert_eq!(home_dir_under(UserHome::Missing).as_deref(), Some("./.acpx-rs"));
    assert_eq!(home_dir_under(UserHome::NotUnicode), None);
    assert_eq!(default_home_name(), ".acpx-rs");
    let home = dirs::home_dir().unwrap_or_else(|| ".".into()).join(".acpx-rs");
    assert_eq!(default_home_dir().as_deref(), home.to_str());
}

#[test]
fn file_names_have_the_parts_of_the_standard_library() {
    for name in ["a.json", "a", ".json", "a.b.log", "a.", "..a", ".a.sock", "a..json", "json"] {
        let path = Path::new(name);
        assert_eq!(file_stem(name), path.file_stem().unwrap().to_str().unwrap(), "{name}");
        for extension in ["json", "log", "sock", ""] {
            let expected = path.extension().and_then(|e| e.to_str()) == Some(extension);
            assert_eq!(has_extension(name, extension), expected, "{name} {extension}");
        }
    }
}

#[test]
fn files_lead_back_to_their_record() {
    let paths = SessionPaths::new("/h");
    for name in ["demo", "a b", "x.y", "."] {
        let safe = safe_name(name);
        assert_eq!(paths.record_of_file(&format!("{safe}.log")), paths.record_path(name));
        assert_eq!(paths.record_of_file(&format!("{safe}.sock")), paths.record_path(name));
        assert_eq!(file_kind(&format!("{safe}.json")), FileKind::Record);
        assert_eq!(file_kind(&format!("{safe}.sock")), FileKind::Socket);
        assert_eq!(file_kind(&format!("{safe}.log")), FileKind::Log);
    }
    assert_eq!(file_kind("readme"), FileKind::Other);
    // Without a name there is no stem to go by.
    assert_eq!(file_kind(".json"), FileKind::Other);
    assert_eq!(file_stem(".log"), ".log");
}
