use acpx_rs::workspace::{
    components, is_within, requested_path, validate_path, PathError, PathState, PathStep, MAX_LINKS,
};
use std::path::Path;

const PATHS: [&str; 16] = [
    "", "/", ".", "..", "a", "/a", "/a/", "/a//b", "/a/./b", "/a/../b", "./a", "a/.", "//a", "/a/b/c", "/ab", "a/b",
];

#[test]
fn components_are_those_of_the_standard_library() {
    for path in PATHS {
        let expected: Vec<String> =
            Path::new(path).components().map(|c| c.as_os_str().to_str().unwrap().to_string()).collect();
        assert_eq!(components(path), expected, "{path}");
    }
}

#[test]
fn lying_within_is_starting_with() {
    for dir in PATHS {
        for path in PATHS {
            assert_eq!(is_within(dir, path), Path::new(path).starts_with(dir), "{dir} {path}");
        }
    }
}

#[test]
fn a_missing_file_leads_to_its_directory() {
    for raw in ["/a/b", "/a/b/", "/b", "/a/..", "/a/../x", "x", "x/y", "./x"] {
        let absolute = Path::new("/w").join(raw);
        match validate_path("/w", raw, PathState::Whole, None, None) {
            PathStep::Resolve { path, then: PathState::Parent(name) } => {
                assert_eq!(Path::new(&path), absolute.parent().unwrap(), "{raw}");
                assert_eq!(name.as_deref(), absolute.file_name().and_then(|n| n.to_str()), "{raw}");
            }
            _ => panic!("{raw}"),
        }
    }
}

#[test]
fn a_path_starts_in_the_workspace() {
    assert_eq!(requested_path("/w", "a/b"), "/w/a/b");
    assert_eq!(requested_path("/w", "/etc/passwd"), "/etc/passwd");
}

#[test]
fn a_resolved_path_in_the_workspace_is_accepted() {
    for path in ["/w", "/w/a", "/w/a/b"] {
        match validate_path("/w", "a", PathState::Whole, Some(path.to_string()), None) {
            PathStep::Accept(accepted) => assert_eq!(accepted, path),
            _ => panic!("{path}"),
        }
    }
    let state = PathState::Parent(Some("new".to_string()));
    match validate_path("/w", "d/new", state, Some("/w/d".to_string()), None) {
        PathStep::Accept(accepted) => assert_eq!(accepted, "/w/d/new"),
        _ => panic!(),
    }
}

fn refusal(step: PathStep) -> PathError {
    match step {
        PathStep::Refuse(error) => error,
        _ => panic!("not refused"),
    }
}

#[test]
fn a_path_outside_of_the_workspace_is_refused() {
    for path in ["/", "/etc/passwd", "/work", "/w2/a"] {
        let error = refusal(validate_path("/w", "a", PathState::Whole, Some(path.to_string()), None));
        assert_eq!(error.message(), format!("path {path} is outside the allowed workspace (/w)"));
    }
    let state = PathState::Parent(Some("new".to_string()));
    let error = refusal(validate_path("/w", "../new", state, Some("/".to_string()), None));
    assert_eq!(error.message(), "path /new is outside the allowed workspace (/w)");
}

#[test]
fn a_path_that_cannot_be_resolved_is_refused() {
    let error = refusal(validate_path("/w", "/", PathState::Whole, None, None));
    assert!(matches!(error, PathError::NoParent));
    assert_eq!(error.message(), "no parent directory");
    let error = refusal(validate_path("/w", "a/b", PathState::Parent(Some("b".to_string())), None, None));
    assert!(matches!(error, PathError::UnresolvedParent(_)));
    assert_eq!(error.message(), "cannot resolve parent of: a/b");
    let error = refusal(validate_path("/w", "a/..", PathState::Parent(None), Some("/w/a".to_string()), None));
    assert!(matches!(error, PathError::NoFileName));
    assert_eq!(error.message(), "no file name");
}

fn leaf(name: &str) -> PathState {
    PathState::Parent(Some(name.to_string()))
}

fn target(name: &str, links: u8) -> PathState {
    PathState::Target { name: Some(name.to_string()), links }
}

fn some(text: &str) -> Option<String> {
    Some(text.to_string())
}

#[test]
fn a_link_to_a_file_that_does_not_exist_yet_is_that_file() {
    for (link, dir) in [("new", "/w"), ("d/new", "/w/d"), ("/w/d/new", "/w/d"), ("../x/./new", "/w/../x")] {
        match validate_path("/w", "l", leaf("l"), some("/w"), some(link)) {
            PathStep::Resolve { path, then: PathState::Target { name, links } } => {
                assert_eq!((path.as_str(), name.as_deref(), links), (dir, Some("new"), MAX_LINKS - 1), "{link}");
            }
            _ => panic!("{link}"),
        }
    }
    match validate_path("/w", "l", target("new", 3), some("/w/d"), None) {
        PathStep::Accept(accepted) => assert_eq!(accepted, "/w/d/new"),
        _ => panic!(),
    }
    let error = refusal(validate_path("/w", "l", target("new", 3), some("/x"), None));
    assert_eq!(error.message(), "path /x/new is outside the allowed workspace (/w)");
    // A link that was resolved is judged by where it leads.
    match validate_path("/w", "l", PathState::Whole, some("/w/target"), None) {
        PathStep::Accept(accepted) => assert_eq!(accepted, "/w/target"),
        _ => panic!(),
    }
    // A link outside of the workspace is none of its files.
    let error = refusal(validate_path("/w", "../l", leaf("l"), some("/"), some("w/new")));
    assert_eq!(error.message(), "path /l is outside the allowed workspace (/w)");
}

#[test]
fn links_are_followed_up_to_a_limit() {
    match validate_path("/w", "l", target("m", 1), some("/w"), some("n")) {
        PathStep::Resolve { then: PathState::Target { name, links }, .. } => {
            assert_eq!((name.as_deref(), links), (Some("n"), 0));
        }
        _ => panic!(),
    }
    let error = refusal(validate_path("/w", "l", target("m", 0), some("/w"), some("l")));
    assert!(matches!(error, PathError::UnresolvedLink(_)));
    assert_eq!(error.message(), "cannot resolve symbolic link: /w/m");
}

#[test]
fn a_link_must_lead_to_a_file() {
    let error = refusal(validate_path("/w", "l", leaf("l"), some("/w"), some("/")));
    assert!(matches!(error, PathError::NoParent));
    for link in ["d/", "d/.", "d/.."] {
        match validate_path("/w", "l", leaf("l"), some("/w"), some(link)) {
            PathStep::Resolve { then: PathState::Target { name, .. }, .. } => assert_eq!(name, None, "{link}"),
            _ => panic!("{link}"),
        }
    }
    let nameless = PathState::Target { name: None, links: 3 };
    let error = refusal(validate_path("/w", "l", nameless, some("/w"), None));
    assert!(matches!(error, PathError::NoFileName));
    let error = refusal(validate_path("/w", "l", target("new", 3), None, None));
    assert_eq!(error.message(), "cannot resolve parent of: l");
}
